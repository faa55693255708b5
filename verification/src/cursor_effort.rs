//! Reasoning-effort menus advertised by the Cursor agent.
//!
//! The agent describes each model's parameters as JSON config options. A
//! "thought level" option whose choices are canonical effort tokens becomes a
//! [`ThoughtLevelMenu`]; from it the effort metadata of a model is derived.
//! Which tokens are canonical is decided by the caller, who passes them in.
use vstd::prelude::*;
use crate::json::{JsonValue, deref_opt, get_str, json_get, json_str, or_else};
use crate::text::{lower_contains, lower_eq, lower_eq_str, lower_has_sub, lower_occurs_at, opt_view, str_eq};

verus! {

/// One choice of a thought-level menu.
#[derive(Clone, Debug, PartialEq, Eq)]
pub struct ThoughtLevelOption {
    pub value: String,
    pub label: String,
}

/// A thought-level menu: the config option id, its current value, and the
/// choices that are effort tokens.
#[derive(Clone, Debug, PartialEq, Eq)]
pub struct ThoughtLevelMenu {
    pub config_id: String,
    pub current: Option<String>,
    pub options: Vec<ThoughtLevelOption>,
}

pub type OptionView = (Seq<char>, Seq<char>);

pub type MenuView = (Seq<char>, Option<Seq<char>>, Seq<OptionView>);

pub open spec fn options_view(o: Seq<ThoughtLevelOption>) -> Seq<OptionView> {
    o.map_values(|x: ThoughtLevelOption| (x.value@, x.label@))
}

pub open spec fn menu_view(m: ThoughtLevelMenu) -> MenuView {
    (m.config_id@, opt_view(m.current), options_view(m.options@))
}

pub open spec fn tokens_view(v: Seq<String>) -> Seq<Seq<char>> {
    v.map_values(|s: String| s@)
}

/// The string under `key`, or the empty string.
pub open spec fn str_field(v: JsonValue, key: Seq<char>) -> Seq<char> {
    match json_str(json_get(v, key)) {
        Some(s) => s,
        None => Seq::empty(),
    }
}

/// Whether a config option describes a thought level: by its category, its
/// id, or words in its name (all compared in ASCII lower case).
pub open spec fn is_thought_level_spec(v: JsonValue) -> bool {
    let category = str_field(v, "category"@);
    let id = str_field(v, "id"@);
    let name = str_field(v, "name"@);
    ||| lower_eq(category, "thought_level"@)
    ||| lower_eq(category, "thoughtlevel"@)
    ||| lower_eq(id, "effort"@)
    ||| lower_eq(id, "reasoning"@)
    ||| lower_eq(id, "thinking"@)
    ||| lower_eq(id, "thought_level"@)
    ||| lower_has_sub(name, "effort"@)
    ||| lower_has_sub(name, "reasoning"@)
    ||| lower_has_sub(name, "thinking"@)
    ||| lower_has_sub(name, "thought"@)
}

/// `o.and_then(|k| k.get(key))`.
pub open spec fn get_in(o: Option<JsonValue>, key: Seq<char>) -> Option<JsonValue> {
    match o {
        Some(k) => json_get(k, key),
        None => None,
    }
}

/// The nested `kind` object of a config option, if it is an object.
pub open spec fn kind_of(v: JsonValue) -> Option<JsonValue> {
    match json_get(v, "kind"@) {
        Some(JsonValue::Object(o)) => Some(JsonValue::Object(o)),
        _ => None,
    }
}

/// The first of the keys `options`, `values`, `items` of an object that
/// holds an array.
pub open spec fn nested_array(v: JsonValue) -> Option<Seq<JsonValue>> {
    match json_get(v, "options"@) {
        Some(JsonValue::Array(a)) => Some(a@),
        _ => match json_get(v, "values"@) {
            Some(JsonValue::Array(a)) => Some(a@),
            _ => match json_get(v, "items"@) {
                Some(JsonValue::Array(a)) => Some(a@),
                _ => None,
            },
        },
    }
}

/// The choices of a select option: an array as it is, or the array nested
/// in an object; nothing otherwise.
pub open spec fn choices(raw: Option<JsonValue>) -> Seq<JsonValue> {
    match raw {
        Some(JsonValue::Array(a)) => a@,
        Some(JsonValue::Object(o)) => match nested_array(JsonValue::Object(o)) {
            Some(a) => a,
            None => Seq::empty(),
        },
        _ => Seq::empty(),
    }
}

/// A choice as a menu entry: its `value` (or the choice itself, when it is a
/// string) if that is an accepted effort token, labelled by its `name` (or
/// the value).
pub open spec fn parse_choice(el: JsonValue, accepted: Seq<Seq<char>>) -> Option<OptionView> {
    let value = match json_str(json_get(el, "value"@)) {
        Some(s) => Some(s),
        None => json_str(Some(el)),
    };
    match value {
        Some(val) => if accepted.contains(val) {
            Some(
                (
                    val,
                    match json_str(json_get(el, "name"@)) {
                        Some(n) => n,
                        None => val,
                    },
                ),
            )
        } else {
            None
        },
        None => None,
    }
}

pub open spec fn parse_choices(els: Seq<JsonValue>, accepted: Seq<Seq<char>>) -> Seq<OptionView>
    decreases els.len(),
{
    if els.len() == 0 {
        seq![]
    } else {
        parse_choices(els.drop_last(), accepted) + match parse_choice(els.last(), accepted) {
            Some(o) => seq![o],
            None => seq![],
        }
    }
}

/// A config option read as a thought-level menu: it must be an object, look
/// like a thought level and have a string id; its current value and choices
/// are read flat or from its nested `kind`.
pub open spec fn parse_menu_spec(v: JsonValue, accepted: Seq<Seq<char>>) -> Option<MenuView> {
    if !(v is Object) || !is_thought_level_spec(v) || json_str(json_get(v, "id"@)) is None {
        None
    } else {
        let kind = kind_of(v);
        let current = json_str(or_else(json_get(v, "currentValue"@), get_in(kind, "currentValue"@)));
        let raw = or_else(json_get(v, "options"@), get_in(kind, "options"@));
        Some((json_str(json_get(v, "id"@))->0, current, parse_choices(choices(raw), accepted)))
    }
}

/// The usable menus (at least one choice) among the config options, in order.
pub open spec fn usable_menus(vals: Seq<JsonValue>, accepted: Seq<Seq<char>>) -> Seq<MenuView>
    decreases vals.len(),
{
    if vals.len() == 0 {
        seq![]
    } else {
        usable_menus(vals.drop_last(), accepted) + match parse_menu_spec(vals.last(), accepted) {
            Some(m) => if m.2.len() > 0 {
                seq![m]
            } else {
                seq![]
            },
            None => seq![],
        }
    }
}

/// Preference among menus: an id of exactly `effort` first, then ids
/// containing `effort`, then the rest (ASCII case ignored).
pub open spec fn menu_rank(id: Seq<char>) -> nat {
    if lower_eq(id, "effort"@) {
        0
    } else if lower_has_sub(id, "effort"@) {
        1
    } else {
        2
    }
}

/// The first menu of the best rank.
pub open spec fn best_menu(ms: Seq<MenuView>) -> Option<MenuView>
    decreases ms.len(),
{
    if ms.len() == 0 {
        None
    } else {
        match best_menu(ms.drop_last()) {
            Some(b) => if menu_rank(b.0) <= menu_rank(ms.last().0) {
                Some(b)
            } else {
                Some(ms.last())
            },
            None => Some(ms.last()),
        }
    }
}

impl ThoughtLevelMenu {
    /// A copy of the menu.
    pub fn duplicate(&self) -> (r: ThoughtLevelMenu)
        ensures
            menu_view(r) == menu_view(*self),
    {
        let mut options: Vec<ThoughtLevelOption> = Vec::new();
        let n = self.options.len();
        let mut i: usize = 0;
        while i < n
            invariant
                n == self.options@.len(),
                i <= n,
                options_view(options@) == options_view(self.options@).take(i as int),
            decreases n - i,
        {
            let o = &self.options[i];
            let ghost before = options_view(options@);
            options.push(ThoughtLevelOption { value: o.value.clone(), label: o.label.clone() });
            assert(options_view(options@) =~= before.push((o.value@, o.label@)));
            assert(options_view(self.options@).take(i + 1) =~= options_view(self.options@).take(
                i as int,
            ).push(options_view(self.options@)[i as int]));
            i = i + 1;
        }
        assert(options_view(self.options@).take(n as int) =~= options_view(self.options@));
        let current = match &self.current {
            Some(c) => Some(c.clone()),
            None => None,
        };
        ThoughtLevelMenu { config_id: self.config_id.clone(), current, options }
    }

    pub fn usable(&self) -> (r: bool)
        ensures
            r == (self.options@.len() > 0),
    {
        self.options.len() > 0
    }
}

/// Whether a config option describes a thought level.
pub fn is_thought_level_option(obj: &JsonValue) -> (r: bool)
    ensures
        r == is_thought_level_spec(*obj),
{
    let category = match get_str(obj, "category") {
        Some(s) => s,
        None => "",
    };
    let id = match get_str(obj, "id") {
        Some(s) => s,
        None => "",
    };
    let name = match get_str(obj, "name") {
        Some(s) => s,
        None => "",
    };
    proof {
        reveal_strlit("");
    }
    assert(category@ == str_field(*obj, "category"@));
    assert(id@ == str_field(*obj, "id"@));
    assert(name@ == str_field(*obj, "name"@));
    lower_eq_str(category, "thought_level") || lower_eq_str(category, "thoughtlevel")
        || lower_eq_str(id, "effort") || lower_eq_str(id, "reasoning") || lower_eq_str(
        id,
        "thinking",
    ) || lower_eq_str(id, "thought_level") || lower_contains(name, "effort") || lower_contains(
        name,
        "reasoning",
    ) || lower_contains(name, "thinking") || lower_contains(name, "thought")
}

pub(crate) fn get_array<'a>(v: &'a JsonValue, key: &str) -> (r: Option<&'a Vec<JsonValue>>)
    ensures
        match json_get(*v, key@) {
            Some(JsonValue::Array(a)) => r == Some(&a),
            _ => r is None,
        },
{
    match v.get(key) {
        Some(x) => x.as_array(),
        None => None,
    }
}

/// The choices of a select option (see [`choices`]); `None` stands for none.
pub fn flatten_select_options<'a>(raw: Option<&'a JsonValue>) -> (r: Option<&'a Vec<JsonValue>>)
    ensures
        match r {
            Some(a) => a@ == choices(deref_opt(raw)),
            None => choices(deref_opt(raw)).len() == 0,
        },
{
    let raw = match raw {
        Some(r) => r,
        None => return None,
    };
    if let Some(arr) = raw.as_array() {
        return Some(arr);
    }
    if raw.as_object().is_some() {
        if let Some(a) = get_array(raw, "options") {
            return Some(a);
        }
        if let Some(a) = get_array(raw, "values") {
            return Some(a);
        }
        if let Some(a) = get_array(raw, "items") {
            return Some(a);
        }
    }
    None
}

pub(crate) fn is_accepted(value: &str, accepted: &Vec<String>) -> (r: bool)
    ensures
        r == tokens_view(accepted@).contains(value@),
{
    let n = accepted.len();
    let mut i: usize = 0;
    while i < n
        invariant
            n == accepted@.len(),
            i <= n,
            forall|j: int| 0 <= j < i ==> accepted@[j]@ != value@,
        decreases n - i,
    {
        if str_eq(accepted[i].as_str(), value) {
            assert(tokens_view(accepted@)[i as int] == value@);
            return true;
        }
        i = i + 1;
    }
    proof {
        if tokens_view(accepted@).contains(value@) {
            let j = choose|j: int| 0 <= j < tokens_view(accepted@).len() && tokens_view(accepted@)[j] == value@;
            assert(accepted@[j]@ == value@);
        }
    }
    false
}

fn parse_choice_exec(el: &JsonValue, accepted: &Vec<String>) -> (r: Option<ThoughtLevelOption>)
    ensures
        match r {
            Some(o) => parse_choice(*el, tokens_view(accepted@)) == Some((o.value@, o.label@)),
            None => parse_choice(*el, tokens_view(accepted@)) is None,
        },
{
    let value = match get_str(el, "value") {
        Some(s) => Some(s),
        None => el.as_str(),
    };
    let value = match value {
        Some(v) => v,
        None => return None,
    };
    if !is_accepted(value, accepted) {
        return None;
    }
    let label = match get_str(el, "name") {
        Some(n) => n,
        None => value,
    };
    Some(ThoughtLevelOption { value: value.to_owned(), label: label.to_owned() })
}

/// A config option read as a thought-level menu (see [`parse_menu_spec`]).
#[verifier::rlimit(40)]
pub fn parse_thought_level_menu(raw: &JsonValue, accepted: &Vec<String>) -> (r: Option<
    ThoughtLevelMenu,
>)
    ensures
        match r {
            Some(m) => parse_menu_spec(*raw, tokens_view(accepted@)) == Some(menu_view(m)),
            None => parse_menu_spec(*raw, tokens_view(accepted@)) is None,
        },
{
    if raw.as_object().is_none() {
        return None;
    }
    if !is_thought_level_option(raw) {
        return None;
    }
    let config_id = match get_str(raw, "id") {
        Some(s) => s.to_owned(),
        None => return None,
    };
    let kind: Option<&JsonValue> = match raw.get("kind") {
        Some(k) => if k.as_object().is_some() {
            Some(k)
        } else {
            None
        },
        None => None,
    };
    assert(deref_opt(kind) == kind_of(*raw));
    let current_src = match raw.get("currentValue") {
        Some(c) => Some(c),
        None => match kind {
            Some(k) => k.get("currentValue"),
            None => None,
        },
    };
    let current = match current_src {
        Some(c) => match c.as_str() {
            Some(s) => Some(s.to_owned()),
            None => None,
        },
        None => None,
    };
    let options_src = match raw.get("options") {
        Some(o) => Some(o),
        None => match kind {
            Some(k) => k.get("options"),
            None => None,
        },
    };
    let ghost acc = tokens_view(accepted@);
    let ghost els = choices(deref_opt(options_src));
    let mut options: Vec<ThoughtLevelOption> = Vec::new();
    match flatten_select_options(options_src) {
        Some(arr) => {
            let n = arr.len();
            let mut i: usize = 0;
            while i < n
                invariant
                    n == arr@.len(),
                    arr@ == els,
                    acc == tokens_view(accepted@),
                    i <= n,
                    options_view(options@) == parse_choices(els.take(i as int), acc),
                decreases n - i,
            {
                assert(els.take(i + 1).drop_last() =~= els.take(i as int));
                assert(els.take(i + 1).last() == els[i as int]);
                let ghost before = options_view(options@);
                match parse_choice_exec(&arr[i], accepted) {
                    Some(o) => {
                        options.push(o);
                        assert(options_view(options@) =~= before.push((o.value@, o.label@)));
                    },
                    None => {},
                }
                assert(options_view(options@) =~= parse_choices(els.take(i + 1), acc));
                i = i + 1;
            }
            assert(els.take(n as int) =~= els);
        },
        None => {
            assert(options_view(options@) =~= parse_choices(els, acc));
        },
    }
    Some(ThoughtLevelMenu { config_id, current, options })
}

fn rank_of(id: &str) -> (r: u8)
    ensures
        r as nat == menu_rank(id@),
{
    if lower_eq_str(id, "effort") {
        0
    } else if lower_contains(id, "effort") {
        1
    } else {
        2
    }
}

/// The preferred thought-level menu among a model's config options: the
/// first usable menu of the best rank (see [`menu_rank`]).
#[verifier::rlimit(40)]
pub fn thought_level_menu_from_config_values(options: &Vec<JsonValue>, accepted: &Vec<String>) -> (r:
    Option<ThoughtLevelMenu>)
    ensures
        match r {
            Some(m) => best_menu(usable_menus(options@, tokens_view(accepted@))) == Some(
                menu_view(m),
            ),
            None => best_menu(usable_menus(options@, tokens_view(accepted@))) is None,
        },
{
    let ghost acc = tokens_view(accepted@);
    let n = options.len();
    let mut best: Option<ThoughtLevelMenu> = None;
    let mut best_rank: u8 = 3;
    let mut i: usize = 0;
    while i < n
        invariant
            n == options@.len(),
            acc == tokens_view(accepted@),
            i <= n,
            match best {
                Some(m) => best_menu(usable_menus(options@.take(i as int), acc)) == Some(
                    menu_view(m),
                ) && best_rank as nat == menu_rank(m.config_id@),
                None => best_menu(usable_menus(options@.take(i as int), acc)) is None,
            },
        decreases n - i,
    {
        let ghost pre = options@.take(i as int);
        assert(options@.take(i + 1).drop_last() =~= pre);
        assert(options@.take(i + 1).last() == options@[i as int]);
        let ghost um = usable_menus(pre, acc);
        match parse_thought_level_menu(&options[i], accepted) {
            Some(m) => {
                if m.usable() {
                    let ghost mv = menu_view(m);
                    assert(usable_menus(options@.take(i + 1), acc) == um.push(mv));
                    assert(um.push(mv).drop_last() =~= um);
                    let r = rank_of(m.config_id.as_str());
                    match best {
                        Some(_) => {
                            if r < best_rank {
                                best = Some(m);
                                best_rank = r;
                            }
                        },
                        None => {
                            best = Some(m);
                            best_rank = r;
                        },
                    }
                } else {
                    assert(usable_menus(options@.take(i + 1), acc) =~= um);
                }
            },
            None => {
                assert(usable_menus(options@.take(i + 1), acc) =~= um);
            },
        }
        i = i + 1;
    }
    assert(options@.take(n as int) =~= options@);
    best
}

/// The preferred menu is the first one of the best rank: no menu ranks
/// better, and every menu before it ranks worse. So an id of exactly
/// `effort` wins over a boolean thinking toggle listed before it.
pub proof fn best_menu_is_first_of_best_rank(ms: Seq<MenuView>)
    ensures
        best_menu(ms) is Some <==> ms.len() > 0,
        ms.len() > 0 ==> exists|k: int|
            0 <= k < ms.len() && best_menu(ms) == Some(ms[k]) && (forall|j: int|
                0 <= j < ms.len() ==> menu_rank(ms[k].0) <= menu_rank(#[trigger] ms[j].0)) && (
            forall|j: int| 0 <= j < k ==> menu_rank(ms[k].0) < menu_rank(#[trigger] ms[j].0)),
    decreases ms.len(),
{
    if ms.len() > 0 {
        let pre = ms.drop_last();
        best_menu_is_first_of_best_rank(pre);
        let last = ms.len() - 1;
        match best_menu(pre) {
            Some(b) => {
                let k = choose|k: int|
                    0 <= k < pre.len() && best_menu(pre) == Some(pre[k]) && (forall|j: int|
                        0 <= j < pre.len() ==> menu_rank(pre[k].0) <= menu_rank(
                            #[trigger] pre[j].0,
                        )) && (forall|j: int|
                        0 <= j < k ==> menu_rank(pre[k].0) < menu_rank(#[trigger] pre[j].0));
                if menu_rank(b.0) <= menu_rank(ms.last().0) {
                    assert(ms[k] == pre[k]);
                    assert forall|j: int| 0 <= j < ms.len() implies menu_rank(ms[k].0) <= menu_rank(
                        #[trigger] ms[j].0,
                    ) by {
                        if j < last {
                            assert(ms[j] == pre[j]);
                        }
                    }
                    assert forall|j: int| 0 <= j < k implies menu_rank(ms[k].0) < menu_rank(
                        #[trigger] ms[j].0,
                    ) by {
                        assert(ms[j] == pre[j]);
                    }
                } else {
                    assert forall|j: int| 0 <= j < ms.len() implies menu_rank(ms[last].0)
                        <= menu_rank(#[trigger] ms[j].0) by {
                        if j < last {
                            assert(ms[j] == pre[j]);
                        }
                    }
                    assert forall|j: int| 0 <= j < last implies menu_rank(ms[last].0) < menu_rank(
                        #[trigger] ms[j].0,
                    ) by {
                        assert(ms[j] == pre[j]);
                    }
                }
            },
            None => {
                assert(pre.len() == 0);
            },
        }
    }
}

/// A menu only ever offers accepted effort tokens (so an on/off toggle
/// whose values are `true`/`false` offers nothing and is not usable).
pub proof fn menus_offer_only_effort_tokens(els: Seq<JsonValue>, accepted: Seq<Seq<char>>)
    ensures
        forall|i: int|
            0 <= i < parse_choices(els, accepted).len() ==> accepted.contains(
                (#[trigger] parse_choices(els, accepted)[i]).0,
            ),
    decreases els.len(),
{
    if els.len() > 0 {
        menus_offer_only_effort_tokens(els.drop_last(), accepted);
        let pre = parse_choices(els.drop_last(), accepted);
        assert forall|i: int| 0 <= i < parse_choices(els, accepted).len() implies accepted.contains(
            (#[trigger] parse_choices(els, accepted)[i]).0,
        ) by {
            if i < pre.len() {
                assert(parse_choices(els, accepted)[i] == pre[i]);
            }
        }
    }
}

/// The string an option holds under `key`; empty when it holds none.
pub open spec fn string_at(v: JsonValue, key: Seq<char>) -> Seq<char> {
    match json_get(v, key) {
        Some(JsonValue::String(s)) => s@,
        _ => Seq::empty(),
    }
}

/// A config option is a thought level exactly when its category is
/// `thought_level` or `thoughtlevel`, or its id is `effort`, `reasoning`,
/// `thinking` or `thought_level`, or its name mentions effort, reasoning,
/// thinking or thought (ASCII case ignored throughout).
pub proof fn thought_level_options(v: JsonValue)
    ensures
        is_thought_level_spec(v) <==> {
            ||| lower_eq(string_at(v, "category"@), "thought_level"@)
            ||| lower_eq(string_at(v, "category"@), "thoughtlevel"@)
            ||| lower_eq(string_at(v, "id"@), "effort"@)
            ||| lower_eq(string_at(v, "id"@), "reasoning"@)
            ||| lower_eq(string_at(v, "id"@), "thinking"@)
            ||| lower_eq(string_at(v, "id"@), "thought_level"@)
            ||| lower_has_sub(string_at(v, "name"@), "effort"@)
            ||| lower_has_sub(string_at(v, "name"@), "reasoning"@)
            ||| lower_has_sub(string_at(v, "name"@), "thinking"@)
            ||| lower_has_sub(string_at(v, "name"@), "thought"@)
        },
{
    assert(str_field(v, "category"@) == string_at(v, "category"@));
    assert(str_field(v, "id"@) == string_at(v, "id"@));
    assert(str_field(v, "name"@) == string_at(v, "name"@));
}

/// Menu preference: an id of exactly `effort` ranks before every other id,
/// and an id containing `effort` before every id that does not (ASCII case
/// ignored).
pub proof fn effort_menus_rank_first(a: Seq<char>, b: Seq<char>)
    ensures
        lower_eq(a, "effort"@) && !lower_eq(b, "effort"@) ==> menu_rank(a) < menu_rank(b),
        lower_has_sub(a, "effort"@) && !lower_has_sub(b, "effort"@) ==> menu_rank(a) < menu_rank(b),
        lower_eq(a, "effort"@) == lower_eq(b, "effort"@) && lower_has_sub(a, "effort"@)
            == lower_has_sub(b, "effort"@) ==> menu_rank(a) == menu_rank(b),
{
    if lower_eq(b, "effort"@) {
        assert(lower_occurs_at(b, "effort"@, 0));
    }
    if lower_eq(a, "effort"@) {
        assert(lower_occurs_at(a, "effort"@, 0));
    }
}

} // verus!
