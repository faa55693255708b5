use grok_modes::cursor_effort::{
    flatten_select_options, is_thought_level_option, parse_thought_level_menu,
    thought_level_menu_from_config_values,
};
use grok_modes::backend::AgentBackend;
use grok_modes::effort_catalog::{
    apply_cursor_model_list, apply_session_config_options, enrich_session_models, listed_model_menus, models_with_id,
    remember_thought_level_config_id, stamp_model_info_with_thought_level, thought_level_config_id,
    ThoughtLevelConfigSlot,
};
use grok_modes::json::JsonValue;

fn obj(entries: Vec<(&str, JsonValue)>) -> JsonValue {
    JsonValue::Object(entries.into_iter().map(|(k, v)| (k.to_string(), v)).collect())
}

fn s(v: &str) -> JsonValue {
    JsonValue::String(v.to_string())
}

fn arr(items: Vec<JsonValue>) -> JsonValue {
    JsonValue::Array(items)
}

fn choice(value: &str, name: &str) -> JsonValue {
    obj(vec![("value", s(value)), ("name", s(name))])
}

fn tokens() -> Vec<String> {
    ["none", "minimal", "low", "medium", "high", "xhigh"].iter().map(|t| t.to_string()).collect()
}

fn cursor_effort_option() -> JsonValue {
    obj(vec![
        ("id", s("effort")),
        ("name", s("Effort")),
        ("category", s("thought_level")),
        ("type", s("select")),
        ("currentValue", s("high")),
        (
            "options",
            arr(vec![
                choice("low", "Low"),
                choice("medium", "Medium"),
                choice("high", "High"),
                choice("xhigh", "Extra High"),
            ]),
        ),
    ])
}

#[test]
fn nested_acp_kind_shape_is_accepted() {
    let menu = thought_level_menu_from_config_values(
        &vec![obj(vec![
            ("id", s("effort")),
            ("name", s("Effort")),
            ("category", s("thoughtLevel")),
            (
                "kind",
                obj(vec![
                    ("type", s("select")),
                    ("currentValue", s("medium")),
                    (
                        "options",
                        arr(vec![choice("low", "Low"), choice("medium", "Medium"), choice("high", "High")]),
                    ),
                ]),
            ),
        ])],
        &tokens(),
    )
    .expect("nested kind");
    assert_eq!(menu.current.as_deref(), Some("medium"));
    assert_eq!(menu.options.len(), 3);
}

#[test]
fn grok_46_effort_menu_is_selected_from_cursor_config() {
    let menu = thought_level_menu_from_config_values(
        &vec![
            obj(vec![
                ("id", s("mode")),
                ("category", s("mode")),
                ("currentValue", s("agent")),
                ("options", arr(vec![obj(vec![("value", s("agent"))])])),
            ]),
            cursor_effort_option(),
        ],
        &tokens(),
    )
    .expect("effort menu");
    assert_eq!(menu.config_id, "effort");
    assert_eq!(menu.current.as_deref(), Some("high"));
    let values: Vec<_> = menu.options.iter().map(|o| o.value.as_str()).collect();
    assert_eq!(values, ["low", "medium", "high", "xhigh"]);
}

#[test]
fn boolean_thinking_toggle_is_not_an_effort_menu() {
    let menu = thought_level_menu_from_config_values(
        &vec![obj(vec![
            ("id", s("thinking")),
            ("name", s("Thinking")),
            ("category", s("thought_level")),
            ("currentValue", s("true")),
            ("options", arr(vec![choice("false", "Off"), choice("true", "On")])),
        ])],
        &tokens(),
    );
    assert!(menu.is_none());
}

#[test]
fn prefers_effort_over_boolean_thinking_when_both_present() {
    let menu = thought_level_menu_from_config_values(
        &vec![
            obj(vec![
                ("id", s("thinking")),
                ("category", s("thought_level")),
                ("currentValue", s("true")),
                ("options", arr(vec![obj(vec![("value", s("false"))]), obj(vec![("value", s("true"))])])),
            ]),
            cursor_effort_option(),
        ],
        &tokens(),
    )
    .expect("effort wins");
    assert_eq!(menu.config_id, "effort");
}

#[test]
fn stamps_grok_meta_so_effort_picker_opens() {
    let menu = thought_level_menu_from_config_values(&vec![cursor_effort_option()], &tokens()).unwrap();
    let stamp = stamp_model_info_with_thought_level(&menu, &tokens());
    assert_eq!(stamp.config_id, "effort");
    assert_eq!(stamp.current.as_deref(), Some("high"));
    assert_eq!(stamp.efforts.len(), 4);
    let defaults: Vec<_> = stamp.efforts.iter().filter(|e| e.default).map(|e| e.id.as_str()).collect();
    assert_eq!(defaults, ["high"]);
    assert_eq!(stamp.efforts[3].label, "Extra High");
}

#[test]
fn apply_session_config_options_stamps_current_model_only() {
    let models = vec!["grok-4.6".to_string(), "composer-2.5".to_string()];
    let listed = obj(vec![(
        "models",
        arr(vec![
            obj(vec![("value", s("grok-4.6")), ("configOptions", arr(vec![cursor_effort_option()]))]),
            obj(vec![("value", s("composer-2.5")), ("configOptions", arr(vec![]))]),
        ]),
    )]);
    let plan = apply_cursor_model_list(&models, "grok-4.6", &listed, None, &tokens());
    // Only grok-4.6 (index 0) is stamped; composer-2.5 gets no effort metadata.
    assert_eq!(plan.stamps.iter().map(|(i, _)| *i).collect::<Vec<_>>(), vec![0]);
    let stamp = stamp_model_info_with_thought_level(&plan.stamps[0].1, &tokens());
    assert_eq!(stamp.config_id, "effort");
    assert!(stamp.efforts.iter().any(|e| e.id == "xhigh"));
    assert_eq!(plan.remembered.as_deref(), Some("effort"));

    let menus = listed_model_menus(&listed, &tokens());
    assert_eq!(menus.len(), 1);
    assert_eq!(menus[0].model_id, "grok-4.6");
    assert_eq!(menus[0].menu.config_id, "effort");
    assert_eq!(models_with_id(&models, &menus[0].model_id), vec![0]);
    assert!(models_with_id(&models, "composer-2.5") == vec![1]);
}

#[test]
fn thought_level_detection() {
    assert!(is_thought_level_option(&obj(vec![("category", s("THOUGHT_LEVEL"))])));
    assert!(is_thought_level_option(&obj(vec![("id", s("Reasoning"))])));
    assert!(is_thought_level_option(&obj(vec![("name", s("Deep Thinking budget"))])));
    assert!(!is_thought_level_option(&obj(vec![("id", s("mode")), ("name", s("Mode"))])));
}

#[test]
fn select_options_shapes() {
    let direct = arr(vec![s("low")]);
    assert_eq!(flatten_select_options(Some(&direct)).map(|a| a.len()), Some(1));
    let nested = obj(vec![("values", arr(vec![s("low"), s("high")]))]);
    assert_eq!(flatten_select_options(Some(&nested)).map(|a| a.len()), Some(2));
    assert!(flatten_select_options(Some(&s("x"))).is_none());
    assert!(flatten_select_options(None).is_none());
}

#[test]
fn plain_string_choices_and_missing_id() {
    let opt = obj(vec![
        ("id", s("effort_level")),
        ("category", s("other")),
        ("name", s("Reasoning effort")),
        ("options", arr(vec![s("low"), s("bogus"), s("high")])),
    ]);
    let menu = parse_thought_level_menu(&opt, &tokens()).unwrap();
    assert_eq!(menu.options.len(), 2);
    assert_eq!(menu.options[1].label, "high");
    assert!(menu.current.is_none());
    let no_id = obj(vec![("category", s("thought_level")), ("options", arr(vec![s("low")]))]);
    assert!(parse_thought_level_menu(&no_id, &tokens()).is_none());
}

#[test]
fn id_containing_effort_beats_other_thought_levels() {
    let mk = |id: &str| {
        obj(vec![("id", s(id)), ("category", s("thought_level")), ("options", arr(vec![s("low")]))])
    };
    let menu = thought_level_menu_from_config_values(&vec![mk("reasoning"), mk("reasoning_effort"), mk("effort2")], &tokens())
        .unwrap();
    assert_eq!(menu.config_id, "reasoning_effort");
    let menu = thought_level_menu_from_config_values(&vec![mk("reasoning"), mk("Effort")], &tokens()).unwrap();
    assert_eq!(menu.config_id, "Effort");
}

#[test]
fn cursor_listing_plan_stamps_and_remembers() {
    let models = vec!["grok-4.6".to_string(), "composer-2.5".to_string(), "grok-4.6".to_string()];
    let listed = obj(vec![(
        "models",
        arr(vec![
            obj(vec![("value", s("grok-4.6")), ("configOptions", arr(vec![cursor_effort_option()]))]),
            obj(vec![("configOptions", arr(vec![cursor_effort_option()]))]),
            obj(vec![("value", s("unknown")), ("configOptions", arr(vec![cursor_effort_option()]))]),
        ]),
    )]);
    let plan = apply_cursor_model_list(&models, "grok-4.6", &listed, None, &tokens());
    assert_eq!(plan.stamps.iter().map(|(i, _)| *i).collect::<Vec<_>>(), vec![0, 2]);
    assert_eq!(plan.remembered.as_deref(), Some("effort"));

    let plan = apply_cursor_model_list(&models, "composer-2.5", &listed, None, &tokens());
    assert_eq!(plan.stamps.len(), 2);
    assert_eq!(plan.remembered, None);

    let session = vec![obj(vec![
        ("id", s("reasoning")),
        ("category", s("thought_level")),
        ("currentValue", s("low")),
        ("options", arr(vec![s("low"), s("high")])),
    ])];
    let plan = apply_cursor_model_list(&models, "composer-2.5", &listed, Some(&session), &tokens());
    assert_eq!(plan.stamps.iter().map(|(i, _)| *i).collect::<Vec<_>>(), vec![0, 2, 1]);
    assert_eq!(plan.stamps[2].1.config_id, "reasoning");
    assert_eq!(plan.remembered.as_deref(), Some("reasoning"));

    let plan = apply_session_config_options(&models, "grok-4.6", None, &tokens());
    assert!(plan.stamps.is_empty() && plan.remembered.is_none());

    let mut slot = ThoughtLevelConfigSlot::new();
    assert_eq!(thought_level_config_id(&slot), None);
    remember_thought_level_config_id(&mut slot, Some("effort".into()));
    assert_eq!(thought_level_config_id(&slot).as_deref(), Some("effort"));
}

#[test]
fn enrich_uses_the_listing_only_on_cursor() {
    let models = vec!["grok-4.6".to_string(), "composer-2.5".to_string()];
    let listed = obj(vec![(
        "models",
        arr(vec![obj(vec![("value", s("composer-2.5")), ("configOptions", arr(vec![cursor_effort_option()]))])]),
    )]);
    let session = vec![cursor_effort_option()];

    let plan = enrich_session_models(AgentBackend::Cursor, &models, "grok-4.6", Some(&listed), Some(&session), &tokens());
    assert_eq!(plan.stamps.iter().map(|(i, _)| *i).collect::<Vec<_>>(), vec![1, 0]);
    assert_eq!(plan.remembered.as_deref(), Some("effort"));

    let plan = enrich_session_models(AgentBackend::Cursor, &models, "grok-4.6", None, Some(&session), &tokens());
    assert_eq!(plan.stamps.iter().map(|(i, _)| *i).collect::<Vec<_>>(), vec![0]);

    let plan = enrich_session_models(AgentBackend::Grok, &models, "grok-4.6", Some(&listed), Some(&session), &tokens());
    assert_eq!(plan.stamps.iter().map(|(i, _)| *i).collect::<Vec<_>>(), vec![0]);

    let plan = enrich_session_models(AgentBackend::Grok, &models, "grok-4.6", Some(&listed), None, &tokens());
    assert!(plan.stamps.is_empty() && plan.remembered.is_none());
}
