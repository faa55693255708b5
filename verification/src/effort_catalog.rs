//! Effort metadata derived from thought-level menus, and the stamps a
//! model catalog receives from a Cursor model listing and from the session's
//! config options.
use vstd::prelude::*;
use crate::cursor_effort::{
    MenuView, OptionView, ThoughtLevelMenu, best_menu, get_array, is_accepted, menu_view,
    options_view, thought_level_menu_from_config_values, tokens_view, usable_menus,
};
use crate::backend::AgentBackend;
use crate::json::{JsonValue, get_str, json_get, json_str};
use crate::text::{opt_view, str_eq};

verus! {

// ---------------------------------------------------------------------------
// Effort metadata of a model
// ---------------------------------------------------------------------------

/// One reasoning-effort choice offered for a model.
#[derive(Clone, Debug, PartialEq, Eq)]
pub struct EffortChoice {
    pub id: String,
    pub label: String,
    /// Whether this is the menu's current value.
    pub default: bool,
}

/// What is stamped onto a model's metadata from its menu: effort support,
/// the config option id, the current effort (when it is a token) and the
/// effort choices (recorded only when there are any).
#[derive(Clone, Debug, PartialEq, Eq)]
pub struct EffortStamp {
    pub config_id: String,
    pub current: Option<String>,
    pub efforts: Vec<EffortChoice>,
}

pub open spec fn choice_view(c: EffortChoice) -> (Seq<char>, Seq<char>, bool) {
    (c.id@, c.label@, c.default)
}

/// The effort choices of a menu: its accepted options, marked default when
/// equal to the current value.
pub open spec fn effort_choices(
    opts: Seq<OptionView>,
    current: Option<Seq<char>>,
    accepted: Seq<Seq<char>>,
) -> Seq<(Seq<char>, Seq<char>, bool)>
    decreases opts.len(),
{
    if opts.len() == 0 {
        seq![]
    } else {
        let o = opts.last();
        effort_choices(opts.drop_last(), current, accepted) + if accepted.contains(o.0) {
            seq![(o.0, o.1, current == Some(o.0))]
        } else {
            seq![]
        }
    }
}

/// The effort metadata of a menu.
pub fn stamp_model_info_with_thought_level(menu: &ThoughtLevelMenu, accepted: &Vec<String>) -> (s:
    EffortStamp)
    ensures
        s.config_id@ == menu.config_id@,
        opt_view(s.current) == (match opt_view(menu.current) {
            Some(c) => if tokens_view(accepted@).contains(c) {
                Some(c)
            } else {
                None
            },
            None => None,
        }),
        s.efforts@.map_values(|c: EffortChoice| choice_view(c)) == effort_choices(
            options_view(menu.options@),
            opt_view(menu.current),
            tokens_view(accepted@),
        ),
{
    let current = match &menu.current {
        Some(c) => if is_accepted(c.as_str(), accepted) {
            Some(c.clone())
        } else {
            None
        },
        None => None,
    };
    let ghost opts = options_view(menu.options@);
    let ghost acc = tokens_view(accepted@);
    let n = menu.options.len();
    let mut efforts: Vec<EffortChoice> = Vec::new();
    let mut i: usize = 0;
    while i < n
        invariant
            n == menu.options@.len(),
            opts == options_view(menu.options@),
            acc == tokens_view(accepted@),
            i <= n,
            efforts@.map_values(|c: EffortChoice| choice_view(c)) == effort_choices(
                opts.take(i as int),
                opt_view(menu.current),
                acc,
            ),
        decreases n - i,
    {
        assert(opts.take(i + 1).drop_last() =~= opts.take(i as int));
        assert(opts.take(i + 1).last() == opts[i as int]);
        let ghost before = efforts@.map_values(|c: EffortChoice| choice_view(c));
        let opt = &menu.options[i];
        if is_accepted(opt.value.as_str(), accepted) {
            let is_default = match &menu.current {
                Some(c) => str_eq(c.as_str(), opt.value.as_str()),
                None => false,
            };
            efforts.push(
                EffortChoice {
                    id: opt.value.clone(),
                    label: opt.label.clone(),
                    default: is_default,
                },
            );
            assert(efforts@.map_values(|c: EffortChoice| choice_view(c)) =~= before.push(
                (opt.value@, opt.label@, opt_view(menu.current) == Some(opt.value@)),
            ));
        }
        assert(efforts@.map_values(|c: EffortChoice| choice_view(c)) =~= effort_choices(
            opts.take(i + 1),
            opt_view(menu.current),
            acc,
        ));
        i = i + 1;
    }
    assert(opts.take(n as int) =~= opts);
    EffortStamp { config_id: menu.config_id.clone(), current, efforts }
}

// ---------------------------------------------------------------------------
// Model catalog
// ---------------------------------------------------------------------------

/// The positions in `ids` that hold `id`, in increasing order.
pub open spec fn positions(ids: Seq<Seq<char>>, id: Seq<char>) -> Seq<int>
    decreases ids.len(),
{
    if ids.len() == 0 {
        seq![]
    } else {
        positions(ids.drop_last(), id) + if ids.last() == id {
            seq![ids.len() - 1]
        } else {
            seq![]
        }
    }
}

pub open spec fn indices_view(v: Seq<usize>) -> Seq<int> {
    v.map_values(|j: usize| j as int)
}

/// The positions of the models whose id is `id`.
pub fn models_with_id(model_ids: &Vec<String>, id: &str) -> (r: Vec<usize>)
    ensures
        indices_view(r@) == positions(tokens_view(model_ids@), id@),
        forall|k: int| 0 <= k < r@.len() ==> r@[k] < model_ids@.len(),
{
    let ghost ids = tokens_view(model_ids@);
    let n = model_ids.len();
    let mut r: Vec<usize> = Vec::new();
    let mut i: usize = 0;
    while i < n
        invariant
            n == model_ids@.len(),
            ids == tokens_view(model_ids@),
            i <= n,
            indices_view(r@) == positions(ids.take(i as int), id@),
            forall|k: int| 0 <= k < r@.len() ==> r@[k] < i,
        decreases n - i,
    {
        assert(ids.take(i + 1).drop_last() =~= ids.take(i as int));
        assert(ids.take(i + 1).last() == model_ids@[i as int]@);
        let ghost before = indices_view(r@);
        if str_eq(model_ids[i].as_str(), id) {
            r.push(i);
            assert(indices_view(r@) =~= before.push(i as int));
        }
        assert(indices_view(r@) =~= positions(ids.take(i + 1), id@));
        i = i + 1;
    }
    assert(ids.take(n as int) =~= ids);
    r
}

/// A model listed with its parameter menus.
pub struct ListedModel {
    pub model_id: String,
    pub menu: ThoughtLevelMenu,
}

/// The models of a `list_available_models` answer that carry a usable
/// thought-level menu, in listing order: an entry needs a string `value`
/// (the model id); its `configOptions` array (none when absent) gives the
/// menu.
pub open spec fn listed_entry(e: JsonValue, accepted: Seq<Seq<char>>) -> Option<(Seq<char>, MenuView)> {
    match json_str(json_get(e, "value"@)) {
        Some(id) => {
            let opts = match json_get(e, "configOptions"@) {
                Some(JsonValue::Array(a)) => a@,
                _ => Seq::empty(),
            };
            match best_menu(usable_menus(opts, accepted)) {
                Some(m) => Some((id, m)),
                None => None,
            }
        },
        None => None,
    }
}

pub open spec fn listed_entries(es: Seq<JsonValue>, accepted: Seq<Seq<char>>) -> Seq<(Seq<char>, MenuView)>
    decreases es.len(),
{
    if es.len() == 0 {
        seq![]
    } else {
        listed_entries(es.drop_last(), accepted) + match listed_entry(es.last(), accepted) {
            Some(x) => seq![x],
            None => seq![],
        }
    }
}

/// The `models` array of a listing (none when absent).
pub open spec fn listing_models(body: JsonValue) -> Seq<JsonValue> {
    match json_get(body, "models"@) {
        Some(JsonValue::Array(a)) => a@,
        _ => Seq::empty(),
    }
}

pub open spec fn listed_view(l: ListedModel) -> (Seq<char>, MenuView) {
    (l.model_id@, menu_view(l.menu))
}

/// The menus of a Cursor model listing, per listed model id.
pub fn listed_model_menus(list_body: &JsonValue, accepted: &Vec<String>) -> (r: Vec<ListedModel>)
    ensures
        r@.map_values(|l: ListedModel| listed_view(l)) == listed_entries(
            listing_models(*list_body),
            tokens_view(accepted@),
        ),
{
    let ghost acc = tokens_view(accepted@);
    let ghost es = listing_models(*list_body);
    let mut out: Vec<ListedModel> = Vec::new();
    let empty: Vec<JsonValue> = Vec::new();
    let listed = match get_array(list_body, "models") {
        Some(a) => a,
        None => &empty,
    };
    assert(listed@ == es);
    let n = listed.len();
    let mut i: usize = 0;
    while i < n
        invariant
            n == listed@.len(),
            listed@ == es,
            acc == tokens_view(accepted@),
            i <= n,
            out@.map_values(|l: ListedModel| listed_view(l)) == listed_entries(
                es.take(i as int),
                acc,
            ),
        decreases n - i,
    {
        assert(es.take(i + 1).drop_last() =~= es.take(i as int));
        assert(es.take(i + 1).last() == es[i as int]);
        let ghost before = out@.map_values(|l: ListedModel| listed_view(l));
        let entry = &listed[i];
        if let Some(id) = get_str(entry, "value") {
            let no_opts: Vec<JsonValue> = Vec::new();
            let opts = match get_array(entry, "configOptions") {
                Some(a) => a,
                None => &no_opts,
            };
            if let Some(menu) = thought_level_menu_from_config_values(opts, accepted) {
                let item = ListedModel { model_id: id.to_owned(), menu };
                let ghost iv = listed_view(item);
                out.push(item);
                assert(out@.map_values(|l: ListedModel| listed_view(l)) =~= before.push(iv));
            }
        }
        assert(out@.map_values(|l: ListedModel| listed_view(l)) =~= listed_entries(
            es.take(i + 1),
            acc,
        ));
        i = i + 1;
    }
    assert(es.take(n as int) =~= es);
    out
}

// ---------------------------------------------------------------------------
// Applying menus to a model catalog
// ---------------------------------------------------------------------------

/// The effort stamps to apply to a catalog, in order (a later stamp of the
/// same model overrides an earlier one), and the config option id to
/// remember for the current model, when one is found.
pub struct StampPlan {
    pub stamps: Vec<(usize, ThoughtLevelMenu)>,
    pub remembered: Option<String>,
}

pub open spec fn stamps_view(v: Seq<(usize, ThoughtLevelMenu)>) -> Seq<(int, MenuView)> {
    v.map_values(|p: (usize, ThoughtLevelMenu)| (p.0 as int, menu_view(p.1)))
}

/// Every model with the given id gets the menu.
pub open spec fn stamp_all(js: Seq<int>, m: MenuView) -> Seq<(int, MenuView)> {
    js.map_values(|j: int| (j, m))
}

/// The stamps of a model listing: each listed menu onto every model with
/// that id, in listing order.
pub open spec fn listing_stamps(listed: Seq<(Seq<char>, MenuView)>, ids: Seq<Seq<char>>) -> Seq<
    (int, MenuView),
>
    decreases listed.len(),
{
    if listed.len() == 0 {
        seq![]
    } else {
        listing_stamps(listed.drop_last(), ids) + stamp_all(
            positions(ids, listed.last().0),
            listed.last().1,
        )
    }
}

/// The config id remembered from a listing: that of the last listed menu of
/// the current model, when the catalog holds it.
pub open spec fn listing_remembered(
    listed: Seq<(Seq<char>, MenuView)>,
    ids: Seq<Seq<char>>,
    current: Seq<char>,
) -> Option<Seq<char>>
    decreases listed.len(),
{
    if listed.len() == 0 {
        None
    } else if listed.last().0 == current && positions(ids, current).len() > 0 {
        Some(listed.last().1.0)
    } else {
        listing_remembered(listed.drop_last(), ids, current)
    }
}

/// The session's config options (when given) yield a menu for the current
/// model: it is stamped on every model with the current id and remembered.
pub open spec fn session_menu(values: Option<Seq<JsonValue>>, accepted: Seq<Seq<char>>) -> Option<
    MenuView,
> {
    match values {
        Some(vs) => best_menu(usable_menus(vs, accepted)),
        None => None,
    }
}

pub open spec fn opt_values(v: Option<&Vec<JsonValue>>) -> Option<Seq<JsonValue>> {
    match v {
        Some(x) => Some(x@),
        None => None,
    }
}

/// The plan made from the session's config options alone: the preferred
/// thought-level menu among them goes onto every model with the current id
/// and is remembered; with no such menu, nothing is stamped or remembered.
pub open spec fn session_plan(
    p: StampPlan,
    ids: Seq<Seq<char>>,
    current: Seq<char>,
    values: Option<Seq<JsonValue>>,
    acc: Seq<Seq<char>>,
) -> bool {
    match session_menu(values, acc) {
        Some(m) => opt_view(p.remembered) == Some(m.0) && stamps_view(p.stamps@) == stamp_all(
            positions(ids, current),
            m,
        ),
        None => p.remembered is None && p.stamps@.len() == 0,
    }
}

/// The plan made from a Cursor model listing: the listing's stamps, then
/// those of the session's config options; the session's menu is remembered
/// over the listing's.
pub open spec fn listing_plan(
    p: StampPlan,
    ids: Seq<Seq<char>>,
    current: Seq<char>,
    body: JsonValue,
    values: Option<Seq<JsonValue>>,
    acc: Seq<Seq<char>>,
) -> bool {
    let listed = listed_entries(listing_models(body), acc);
    let session = session_menu(values, acc);
    &&& stamps_view(p.stamps@) == listing_stamps(listed, ids) + match session {
        Some(m) => stamp_all(positions(ids, current), m),
        None => Seq::empty(),
    }
    &&& opt_view(p.remembered) == match session {
        Some(m) => Some(m.0),
        None => listing_remembered(listed, ids, current),
    }
}

fn push_stamps(
    stamps: &mut Vec<(usize, ThoughtLevelMenu)>,
    model_ids: &Vec<String>,
    id: &str,
    menu: &ThoughtLevelMenu,
)
    ensures
        stamps_view(final(stamps)@) == stamps_view(old(stamps)@) + stamp_all(
            positions(tokens_view(model_ids@), id@),
            menu_view(*menu),
        ),
{
    let js = models_with_id(model_ids, id);
    let ghost start = stamps_view(stamps@);
    let ghost target = stamp_all(positions(tokens_view(model_ids@), id@), menu_view(*menu));
    let n = js.len();
    let mut i: usize = 0;
    while i < n
        invariant
            n == js@.len(),
            indices_view(js@) == positions(tokens_view(model_ids@), id@),
            target == stamp_all(positions(tokens_view(model_ids@), id@), menu_view(*menu)),
            i <= n,
            stamps_view(stamps@) == start + target.take(i as int),
        decreases n - i,
    {
        let ghost before = stamps_view(stamps@);
        stamps.push((js[i], menu.duplicate()));
        assert(target[i as int] == (js@[i as int] as int, menu_view(*menu)));
        assert(target.take(i + 1) =~= target.take(i as int).push(target[i as int]));
        assert(stamps_view(stamps@) =~= before.push((js@[i as int] as int, menu_view(*menu))));
        i = i + 1;
    }
    assert(target.take(n as int) =~= target);
}

/// Applies the session's config options: the preferred thought-level menu
/// among them goes onto the current model and is remembered.
pub fn apply_session_config_options(
    model_ids: &Vec<String>,
    current_model_id: &str,
    config_options: Option<&Vec<JsonValue>>,
    accepted: &Vec<String>,
) -> (p: StampPlan)
    ensures
        session_plan(
            p,
            tokens_view(model_ids@),
            current_model_id@,
            opt_values(config_options),
            tokens_view(accepted@),
        ),
{
    let mut stamps: Vec<(usize, ThoughtLevelMenu)> = Vec::new();
    let options = match config_options {
        Some(o) => o,
        None => return StampPlan { stamps, remembered: None },
    };
    let menu = match thought_level_menu_from_config_values(options, accepted) {
        Some(m) => m,
        None => return StampPlan { stamps, remembered: None },
    };
    push_stamps(&mut stamps, model_ids, current_model_id, &menu);
    assert(stamps_view(stamps@) =~= stamp_all(
        positions(tokens_view(model_ids@), current_model_id@),
        menu_view(menu),
    ));
    StampPlan { stamps, remembered: Some(menu.config_id.clone()) }
}

/// Applies a Cursor model listing (every listed menu onto the models with
/// that id, remembering the current model's config id), then the session's
/// config options on top.
pub fn apply_cursor_model_list(
    model_ids: &Vec<String>,
    current_model_id: &str,
    list_body: &JsonValue,
    session_config_options: Option<&Vec<JsonValue>>,
    accepted: &Vec<String>,
) -> (p: StampPlan)
    ensures
        listing_plan(
            p,
            tokens_view(model_ids@),
            current_model_id@,
            *list_body,
            opt_values(session_config_options),
            tokens_view(accepted@),
        ),
{
    let ghost ids = tokens_view(model_ids@);
    let listed = listed_model_menus(list_body, accepted);
    let ghost lv = listed@.map_values(|l: ListedModel| listed_view(l));
    let current_present = models_with_id(model_ids, current_model_id).len() > 0;
    let mut stamps: Vec<(usize, ThoughtLevelMenu)> = Vec::new();
    let mut remembered: Option<String> = None;
    let n = listed.len();
    let mut k: usize = 0;
    while k < n
        invariant
            n == listed@.len(),
            lv == listed@.map_values(|l: ListedModel| listed_view(l)),
            ids == tokens_view(model_ids@),
            current_present == (positions(ids, current_model_id@).len() > 0),
            k <= n,
            stamps_view(stamps@) == listing_stamps(lv.take(k as int), ids),
            opt_view(remembered) == listing_remembered(lv.take(k as int), ids, current_model_id@),
        decreases n - k,
    {
        assert(lv.take(k + 1).drop_last() =~= lv.take(k as int));
        assert(lv.take(k + 1).last() == listed_view(listed@[k as int]));
        let item = &listed[k];
        push_stamps(&mut stamps, model_ids, item.model_id.as_str(), &item.menu);
        if current_present && str_eq(item.model_id.as_str(), current_model_id) {
            remembered = Some(item.menu.config_id.clone());
        }
        k = k + 1;
    }
    assert(lv.take(n as int) =~= lv);
    let session = apply_session_config_options(
        model_ids,
        current_model_id,
        session_config_options,
        accepted,
    );
    let ghost listing_part = stamps_view(stamps@);
    let mut j: usize = 0;
    let m = session.stamps.len();
    while j < m
        invariant
            m == session.stamps@.len(),
            j <= m,
            stamps_view(stamps@) == listing_part + stamps_view(session.stamps@).take(j as int),
        decreases m - j,
    {
        let ghost before = stamps_view(stamps@);
        let (idx, menu) = &session.stamps[j];
        stamps.push((*idx, menu.duplicate()));
        assert(stamps_view(session.stamps@).take(j + 1) =~= stamps_view(session.stamps@).take(
            j as int,
        ).push(stamps_view(session.stamps@)[j as int]));
        assert(stamps_view(stamps@) =~= before.push(stamps_view(session.stamps@)[j as int]));
        j = j + 1;
    }
    assert(stamps_view(session.stamps@).take(m as int) =~= stamps_view(session.stamps@));
    let remembered = match session.remembered {
        Some(r) => Some(r),
        None => remembered,
    };
    proof {
        if session_menu(opt_values(session_config_options), tokens_view(accepted@)) is None {
            assert(stamps_view(session.stamps@) =~= Seq::<(int, MenuView)>::empty());
        }
    }
    StampPlan { stamps, remembered }
}

/// Stamps effort menus onto a freshly opened session's model catalog. The
/// Cursor backend is first asked for its per-model listing (`listing` is the
/// reply, `None` when it was not asked or gave none); with a listing that is
/// used, otherwise the session's config options alone, as an older
/// `cursor-agent` without the listing method needs.
pub fn enrich_session_models(
    backend: AgentBackend,
    model_ids: &Vec<String>,
    current_model_id: &str,
    listing: Option<&JsonValue>,
    config_options: Option<&Vec<JsonValue>>,
    accepted: &Vec<String>,
) -> (p: StampPlan)
    ensures
        ({
            let ids = tokens_view(model_ids@);
            let acc = tokens_view(accepted@);
            let values = opt_values(config_options);
            match listing {
                Some(body) if backend == AgentBackend::Cursor => listing_plan(
                    p,
                    ids,
                    current_model_id@,
                    *body,
                    values,
                    acc,
                ),
                _ => session_plan(p, ids, current_model_id@, values, acc),
            }
        }),
{
    if !backend.is_cursor() {
        return apply_session_config_options(model_ids, current_model_id, config_options, accepted);
    }
    match listing {
        Some(body) => apply_cursor_model_list(
            model_ids,
            current_model_id,
            body,
            config_options,
            accepted,
        ),
        None => apply_session_config_options(model_ids, current_model_id, config_options, accepted),
    }
}

/// The config option id remembered for applying an effort change to the
/// current model.
pub struct ThoughtLevelConfigSlot {
    id: Option<String>,
}

impl View for ThoughtLevelConfigSlot {
    type V = Option<Seq<char>>;

    closed spec fn view(&self) -> Option<Seq<char>> {
        opt_view(self.id)
    }
}

impl ThoughtLevelConfigSlot {
    pub fn new() -> (s: ThoughtLevelConfigSlot)
        ensures
            s@ is None,
    {
        ThoughtLevelConfigSlot { id: None }
    }
}

pub fn remember_thought_level_config_id(slot: &mut ThoughtLevelConfigSlot, id: Option<String>)
    ensures
        final(slot)@ == opt_view(id),
{
    slot.id = id;
}

pub fn thought_level_config_id(slot: &ThoughtLevelConfigSlot) -> (r: Option<String>)
    ensures
        opt_view(r) == slot@,
{
    match &slot.id {
        Some(s) => Some(s.clone()),
        None => None,
    }
}

} // verus!
