use prefs_core::commit::{
    advance, file_name, next_action, render, rendered, temp_file_name, CommitAction, CommitError,
    CommitState,
};
use prefs_core::diagnostic::Diagnostic;
use prefs_core::encode::store_prop;
use prefs_core::reflect::{Attributes, Field, Reflected, Scalar, StructValue};
use toml::Table;

fn run(outcomes: &[bool]) -> (CommitState, Vec<CommitAction>) {
    let mut state = CommitState::Start;
    let mut actions = Vec::new();
    for outcome in outcomes {
        match next_action(state) {
            Some(action) => actions.push(action),
            None => break,
        }
        state = advance(state, *outcome);
    }
    (state, actions)
}

#[test]
fn file_names_are_fixed() {
    assert_eq!(file_name(), "prefs.toml");
    assert_eq!(temp_file_name(), "prefs.toml.new");
    assert_eq!(temp_file_name(), format!("{}.new", file_name()));
}

#[test]
fn a_commit_takes_three_steps_in_order() {
    let (state, actions) = run(&[true, true, true]);
    assert_eq!(state, CommitState::Committed);
    assert_eq!(
        actions,
        vec![CommitAction::CreateDirectory, CommitAction::WriteTemp, CommitAction::Rename]
    );
    assert_eq!(next_action(state), None);
}

#[test]
fn directory_failure_stops_before_any_write() {
    let (state, actions) = run(&[false, true, true]);
    assert_eq!(state, CommitState::Failed(CommitError::Directory));
    assert_eq!(actions, vec![CommitAction::CreateDirectory]);
    assert_eq!(next_action(state), None);
}

#[test]
fn write_failure_stops_before_the_rename() {
    let (state, actions) = run(&[true, false, true]);
    assert_eq!(state, CommitState::Failed(CommitError::Write));
    assert_eq!(actions, vec![CommitAction::CreateDirectory, CommitAction::WriteTemp]);
    assert_eq!(next_action(state), None);
}

#[test]
fn rename_failure_is_the_last_step() {
    let (state, actions) = run(&[true, true, false]);
    assert_eq!(state, CommitState::Failed(CommitError::Rename));
    assert_eq!(actions.len(), 3);
    assert_eq!(next_action(state), None);
}

#[test]
fn finished_commits_stay_as_they_are() {
    assert_eq!(advance(CommitState::Committed, false), CommitState::Committed);
    assert_eq!(advance(CommitState::Committed, true), CommitState::Committed);
    let failed = CommitState::Failed(CommitError::Write);
    assert_eq!(advance(failed, true), failed);
    assert_eq!(advance(failed, false), failed);
}

#[test]
fn each_state_has_its_step() {
    assert_eq!(next_action(CommitState::Start), Some(CommitAction::CreateDirectory));
    assert_eq!(next_action(CommitState::DirectoryReady), Some(CommitAction::WriteTemp));
    assert_eq!(next_action(CommitState::TempWritten), Some(CommitAction::Rename));
    assert_eq!(advance(CommitState::Start, true), CommitState::DirectoryReady);
    assert_eq!(advance(CommitState::DirectoryReady, true), CommitState::TempWritten);
    assert_eq!(advance(CommitState::TempWritten, true), CommitState::Committed);
}

#[test]
fn rendered_keeps_the_text() {
    assert_eq!(rendered(Ok("a = 1\n".to_string())), Ok("a = 1\n".to_string()));
}

#[test]
fn rendered_maps_an_error_to_the_write_step() {
    let failure = toml::to_string(&5i32).unwrap_err();
    assert_eq!(rendered(Err(failure)), Err(CommitError::Write));
}

#[test]
fn render_writes_toml_that_reads_back() {
    let mut table = Table::new();
    let mut diagnostics: Vec<Diagnostic> = Vec::new();
    let video = Reflected::Struct(StructValue {
        type_path: "game::Video".to_string(),
        attributes: Attributes { group: None, key: None },
        fields: vec![
            Field { name: "width".to_string(), value: Reflected::Scalar(Scalar::U32(1920)) },
            Field { name: "height".to_string(), value: Reflected::Scalar(Scalar::U32(1080)) },
        ],
    });
    store_prop(&video, "video", &mut table, &mut diagnostics);
    store_prop(
        &Reflected::Scalar(Scalar::Text("High".to_string())),
        "graphics_quality",
        &mut table,
        &mut diagnostics,
    );
    store_prop(
        &Reflected::Scalar(Scalar::Float(toml::Value::Float(0.5))),
        "volume",
        &mut table,
        &mut diagnostics,
    );
    let text = render(&table).unwrap();
    assert_eq!(
        text,
        "graphics_quality = \"High\"\nvolume = 0.5\n\n[video]\nwidth = 1920\nheight = 1080\n"
    );
    let back: Table = text.parse().unwrap();
    assert_eq!(back.get("volume").unwrap().as_float().unwrap(), 0.5);
    assert_eq!(back.get("graphics_quality").unwrap().as_str().unwrap(), "High");
    let group = back.get("video").unwrap().as_table().unwrap();
    assert_eq!(group.get("width").unwrap().as_integer().unwrap(), 1920);
    assert_eq!(group.get("height").unwrap().as_integer().unwrap(), 1080);
}

#[test]
fn render_agrees_with_display() {
    let mut table = Table::new();
    let mut diagnostics: Vec<Diagnostic> = Vec::new();
    store_prop(&Reflected::Scalar(Scalar::I64(-3)), "n", &mut table, &mut diagnostics);
    assert_eq!(render(&table).unwrap(), table.to_string());
    assert_eq!(render(&table).unwrap(), "n = -3\n");
}
