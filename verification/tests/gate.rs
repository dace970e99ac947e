use prefs_core::commit::render;
use prefs_core::diagnostic::{Diagnostic, DiagnosticKind};
use prefs_core::gate::{save_object, SavePreferences};
use prefs_core::reflect::{
    Attributes, EnumValue, Field, Reflected, Scalar, StructValue, TupleStructValue, VariantKind,
};
use toml::Table;

fn tags(group: Option<&str>, key: Option<&str>) -> Attributes {
    Attributes { group: group.map(str::to_string), key: key.map(str::to_string) }
}

fn video() -> Reflected {
    Reflected::Struct(StructValue {
        type_path: "game::Video".to_string(),
        attributes: tags(Some("video"), None),
        fields: vec![
            Field { name: "width".to_string(), value: Reflected::Scalar(Scalar::U32(1920)) },
            Field { name: "height".to_string(), value: Reflected::Scalar(Scalar::U32(1080)) },
        ],
    })
}

fn volume(level: f32) -> Reflected {
    Reflected::TupleStruct(TupleStructValue {
        type_path: "game::Volume".to_string(),
        attributes: tags(None, Some("volume")),
        fields: vec![Reflected::Scalar(Scalar::Float(toml::Value::Float(level as f64)))],
    })
}

fn quality(variant: &str, group: Option<&str>, key: Option<&str>) -> EnumValue {
    EnumValue {
        type_path: "game::GraphicsQuality".to_string(),
        attributes: tags(group, key),
        variant: variant.to_string(),
        kind: VariantKind::Unit,
        fields: vec![],
    }
}

fn state_of(inner: Reflected) -> Reflected {
    Reflected::TupleStruct(TupleStructValue {
        type_path: "bevy_state::state::resources::State<game::GraphicsQuality>".to_string(),
        attributes: tags(None, None),
        fields: vec![inner],
    })
}

fn document(objects: Vec<Option<Reflected>>) -> (Table, Vec<Diagnostic>) {
    let mut changed = true;
    let mut diagnostics: Vec<Diagnostic> = Vec::new();
    let table = SavePreferences::Always.apply(&mut changed, &objects, &mut diagnostics).unwrap();
    assert!(!changed);
    (table, diagnostics)
}

#[test]
fn default_mode_is_if_changed() {
    assert_eq!(SavePreferences::default(), SavePreferences::IfChanged);
}

#[test]
fn unchanged_preferences_are_not_saved() {
    let mut changed = false;
    let mut diagnostics: Vec<Diagnostic> = Vec::new();
    let objects = vec![Some(video()), Some(Reflected::Scalar(Scalar::Other("x".to_string())))];
    let result = SavePreferences::IfChanged.apply(&mut changed, &objects, &mut diagnostics);
    assert!(result.is_none());
    assert!(!changed);
    assert!(diagnostics.is_empty());
}

#[test]
fn changed_preferences_are_saved_and_the_flag_is_cleared() {
    let mut changed = true;
    let mut diagnostics: Vec<Diagnostic> = Vec::new();
    let objects = vec![Some(volume(0.25))];
    let table = SavePreferences::IfChanged.apply(&mut changed, &objects, &mut diagnostics).unwrap();
    assert!(!changed);
    assert_eq!(table.get("volume").unwrap().as_float().unwrap(), 0.25);
    let again = SavePreferences::IfChanged.apply(&mut changed, &objects, &mut diagnostics);
    assert!(again.is_none());
    assert!(!changed);
}

#[test]
fn always_saves_unchanged_preferences() {
    let mut changed = false;
    let mut diagnostics: Vec<Diagnostic> = Vec::new();
    let objects = vec![Some(volume(0.25))];
    let table = SavePreferences::Always.apply(&mut changed, &objects, &mut diagnostics).unwrap();
    assert!(!changed);
    assert_eq!(table.len(), 1);
}

#[test]
fn no_objects_give_an_empty_document() {
    let (table, diagnostics) = document(vec![]);
    assert!(table.is_empty());
    assert!(diagnostics.is_empty());
    assert_eq!(render(&table).unwrap(), "");
}

#[test]
fn scenario_video_group() {
    let (table, diagnostics) = document(vec![Some(video())]);
    let group = table.get("video").unwrap().as_table().unwrap();
    assert_eq!(group.get("width").unwrap().as_integer().unwrap(), 1920);
    assert_eq!(group.get("height").unwrap().as_integer().unwrap(), 1080);
    assert_eq!(group.len(), 2);
    assert_eq!(table.len(), 1);
    assert!(diagnostics.is_empty());
}

#[test]
fn scenario_volume_at_root() {
    let (table, diagnostics) = document(vec![Some(volume(0.8))]);
    assert_eq!(table.len(), 1);
    let stored = table.get("volume").unwrap().as_float().unwrap();
    assert_eq!(stored, 0.8f32 as f64);
    assert!((stored - 0.8).abs() < 1e-6);
    assert!(diagnostics.is_empty());
}

#[test]
fn scenario_state_holder() {
    let inner = Reflected::Enum(quality("High", None, Some("graphics_quality")));
    let (table, diagnostics) = document(vec![Some(state_of(inner))]);
    assert_eq!(table.len(), 1);
    assert_eq!(table.get("graphics_quality").unwrap().as_str().unwrap(), "High");
    assert!(diagnostics.is_empty());
}

#[test]
fn state_holder_uses_the_group_of_the_enum() {
    let inner = Reflected::Enum(quality("Low", Some("video"), Some("quality")));
    let (table, _) = document(vec![Some(video()), Some(state_of(inner))]);
    let group = table.get("video").unwrap().as_table().unwrap();
    let keys: Vec<&String> = group.keys().collect();
    assert_eq!(keys, vec!["width", "height", "quality"]);
    assert_eq!(group.get("quality").unwrap().as_str().unwrap(), "Low");
}

#[test]
fn state_holder_of_an_untagged_enum_is_skipped() {
    let inner = Reflected::Enum(quality("Low", None, None));
    let (table, diagnostics) = document(vec![Some(state_of(inner))]);
    assert!(table.is_empty());
    assert!(diagnostics.is_empty());
}

#[test]
fn state_holder_of_a_struct_is_reported() {
    let (table, diagnostics) = document(vec![Some(state_of(video()))]);
    assert!(table.is_empty());
    assert_eq!(diagnostics.len(), 1);
    assert_eq!(diagnostics[0].kind, DiagnosticKind::UnsupportedShape);
    assert_eq!(
        diagnostics[0].subject,
        "bevy_state::state::resources::State<game::GraphicsQuality>"
    );
}

#[test]
fn state_holder_of_a_scalar_is_passed_over() {
    let (table, diagnostics) = document(vec![Some(state_of(Reflected::Scalar(Scalar::U8(1))))]);
    assert!(table.is_empty());
    assert!(diagnostics.is_empty());
}

#[test]
fn state_holder_without_content_is_reported() {
    let holder = Reflected::TupleStruct(TupleStructValue {
        type_path: "bevy_state::state::resources::State<game::Q>".to_string(),
        attributes: tags(None, None),
        fields: vec![],
    });
    let (table, diagnostics) = document(vec![Some(holder)]);
    assert!(table.is_empty());
    assert_eq!(diagnostics.len(), 1);
}

#[test]
fn untagged_wrapper_of_another_type_is_skipped() {
    let wrapper = Reflected::TupleStruct(TupleStructValue {
        type_path: "game::State<game::Q>".to_string(),
        attributes: tags(None, None),
        fields: vec![Reflected::Enum(quality("High", None, Some("q")))],
    });
    let (table, diagnostics) = document(vec![Some(wrapper)]);
    assert!(table.is_empty());
    assert!(diagnostics.is_empty());
}

#[test]
fn top_level_enum_with_key_is_stored() {
    let (table, diagnostics) =
        document(vec![Some(Reflected::Enum(quality("Medium", None, Some("quality"))))]);
    assert_eq!(table.get("quality").unwrap().as_str().unwrap(), "Medium");
    assert!(diagnostics.is_empty());
}

#[test]
fn top_level_enum_with_group_alone_is_reported() {
    let (table, diagnostics) =
        document(vec![Some(Reflected::Enum(quality("Medium", Some("video"), None)))]);
    assert!(table.is_empty());
    assert_eq!(diagnostics.len(), 1);
    assert_eq!(diagnostics[0].subject, "game::GraphicsQuality");
}

#[test]
fn objects_without_metadata_or_attributes_are_skipped() {
    let plain_struct = Reflected::Struct(StructValue {
        type_path: "game::Time".to_string(),
        attributes: tags(None, None),
        fields: vec![Field {
            name: "elapsed".to_string(),
            value: Reflected::Scalar(Scalar::U64(5)),
        }],
    });
    let objects = vec![
        None,
        Some(plain_struct),
        Some(Reflected::Scalar(Scalar::I32(3))),
        Some(Reflected::Unsupported("alloc::vec::Vec<u8>".to_string())),
        Some(Reflected::Enum(quality("High", None, None))),
        None,
    ];
    let (table, diagnostics) = document(objects);
    assert!(table.is_empty());
    assert!(diagnostics.is_empty());
}

#[test]
fn one_bad_object_does_not_stop_the_others() {
    let bad = Reflected::Struct(StructValue {
        type_path: "game::Bad".to_string(),
        attributes: tags(None, Some("bad")),
        fields: vec![],
    });
    let (table, diagnostics) = document(vec![Some(volume(1.0)), Some(bad), Some(video())]);
    let keys: Vec<&String> = table.keys().collect();
    assert_eq!(keys, vec!["volume", "video"]);
    assert_eq!(diagnostics.len(), 1);
    assert_eq!(diagnostics[0].subject, "game::Bad");
}

#[test]
fn diagnostics_are_appended_in_walk_order() {
    let mut changed = true;
    let mut diagnostics =
        vec![Diagnostic { kind: DiagnosticKind::NumericOverflow, subject: "earlier".to_string() }];
    let counters = Reflected::Struct(StructValue {
        type_path: "game::Counters".to_string(),
        attributes: tags(Some("counters"), None),
        fields: vec![
            Field { name: "big".to_string(), value: Reflected::Scalar(Scalar::U64(u64::MAX)) },
            Field {
                name: "list".to_string(),
                value: Reflected::Unsupported("alloc::vec::Vec<u8>".to_string()),
            },
        ],
    });
    let bad = Reflected::Enum(quality("Medium", Some("video"), None));
    let objects = vec![Some(counters), Some(bad)];
    let table = SavePreferences::Always.apply(&mut changed, &objects, &mut diagnostics).unwrap();
    assert!(table.get("counters").unwrap().as_table().unwrap().is_empty());
    let subjects: Vec<&str> = diagnostics.iter().map(|d| d.subject.as_str()).collect();
    assert_eq!(subjects, vec!["earlier", "big", "list", "game::GraphicsQuality"]);
    assert_eq!(diagnostics[1].kind, DiagnosticKind::NumericOverflow);
    assert_eq!(diagnostics[2].kind, DiagnosticKind::UnsupportedShape);
}

#[test]
fn saving_twice_gives_the_same_text() {
    let objects = || {
        vec![
            Some(volume(0.8)),
            Some(video()),
            Some(state_of(Reflected::Enum(quality("High", None, Some("graphics_quality"))))),
        ]
    };
    let (first, _) = document(objects());
    let (second, _) = document(objects());
    assert_eq!(first, second);
    assert_eq!(render(&first).unwrap(), render(&second).unwrap());
}

#[test]
fn save_object_adds_to_a_given_table() {
    let mut table = Table::new();
    table.insert("kept".to_string(), toml::Value::Boolean(true));
    let mut diagnostics: Vec<Diagnostic> = Vec::new();
    save_object(&Some(volume(0.5)), &mut table, &mut diagnostics);
    save_object(&None, &mut table, &mut diagnostics);
    let keys: Vec<&String> = table.keys().collect();
    assert_eq!(keys, vec!["kept", "volume"]);
}

fn holds_plain_values_only(table: &Table) -> bool {
    table.iter().all(|(_, value)| match value {
        toml::Value::String(_) | toml::Value::Integer(_) | toml::Value::Float(_) => true,
        toml::Value::Table(inner) => holds_plain_values_only(inner),
        _ => false,
    })
}

#[test]
fn a_document_holds_plain_values_only() {
    let odd = Reflected::TupleStruct(TupleStructValue {
        type_path: "game::Odd".to_string(),
        attributes: tags(Some("misc"), Some("odd")),
        fields: vec![Reflected::Scalar(Scalar::Float(toml::Value::Boolean(true)))],
    });
    let (table, diagnostics) = document(vec![
        Some(video()),
        Some(volume(0.8)),
        Some(odd),
        Some(Reflected::Enum(quality("High", Some("video"), Some("quality")))),
    ]);
    assert!(holds_plain_values_only(&table));
    assert_eq!(table.len(), 3);
    assert!(table.get("misc").unwrap().as_table().unwrap().is_empty());
    assert_eq!(diagnostics.len(), 1);
    assert_eq!(diagnostics[0].subject, "odd");
}
