use addr_resolver::query::{analysis_commands, Query};
use addr_resolver::slots::{Anchor, Slot};
use addr_resolver::step::{Pending, Stage};

fn none() -> Vec<String> {
    Vec::new()
}

#[test]
fn references_are_asked_for_in_one_command() {
    let query = Query::References { target: "fcn.00006000".to_string() };
    assert_eq!(query.prelude(), none());
    assert_eq!(query.command(), "axtj fcn.00006000");
    let query = Query::References { target: String::new() };
    assert_eq!(query.prelude(), none());
    assert_eq!(query.command(), "axtj ");
}

#[test]
fn decompilation_moves_the_cursor_first() {
    let query = Query::Decompile { address: 0x1000 };
    assert_eq!(query.prelude(), vec!["s 4096"]);
    assert_eq!(query.command(), "pdgj");
    let query = Query::Decompile { address: 0 };
    assert_eq!(query.prelude(), vec!["s 0"]);
    assert_eq!(query.command(), "pdgj");
    let query = Query::Decompile { address: u64::MAX };
    assert_eq!(query.prelude(), vec!["s 18446744073709551615"]);
    assert_eq!(query.command(), "pdgj");
}

#[test]
fn imports_are_asked_for_in_one_command() {
    assert_eq!(Query::Imports.prelude(), none());
    assert_eq!(Query::Imports.command(), "iij");
}

#[test]
fn analysis_commands_are_fixed() {
    assert_eq!(analysis_commands(), vec!["aaaa", "aae"]);
}

#[test]
fn anchors_have_their_labels_and_slots() {
    assert_eq!(Anchor::Update.label(), "@str.Unable_to_complete_update:_invalid_waveform__");
    assert_eq!(Anchor::Create.label(), "@str.Unable_to_start_generator_thread");
    assert_eq!(Anchor::Shutdown.label(), "@str.Shutting_down...");
    assert_eq!(Anchor::Update.slot(), Slot::Update);
    assert_eq!(Anchor::Create.slot(), Slot::Create);
    assert_eq!(Anchor::Shutdown.slot(), Slot::Shutdown);
}

fn commands_of(stage: Stage) -> Vec<String> {
    let query = Pending { goal: Slot::GetInstance, stage }.query();
    let mut commands = query.prelude();
    commands.push(query.command());
    commands
}

#[test]
fn each_stage_asks_its_own_question() {
    assert_eq!(
        commands_of(Stage::AnchorReferences { anchor: Anchor::Create }),
        vec!["axtj @str.Unable_to_start_generator_thread"]
    );
    assert_eq!(commands_of(Stage::Decompilation { update: 4096 }), vec!["s 4096", "pdgj"]);
    assert_eq!(commands_of(Stage::ImportTable), vec!["iij"]);
    assert_eq!(commands_of(Stage::SleepCallers { stub: 0x4000 }), vec!["axtj 16384"]);
    assert_eq!(commands_of(Stage::WaitCallers { wait: 0x5000 }), vec!["axtj 20480"]);
    assert_eq!(
        commands_of(Stage::CallerProbe {
            current: "fcn.00006000".to_string(),
            rest: vec!["fcn.00006100".to_string()],
        }),
        vec!["axtj fcn.00006000"]
    );
}

#[test]
fn each_stage_belongs_to_one_slot() {
    assert_eq!(Stage::AnchorReferences { anchor: Anchor::Shutdown }.slot(), Slot::Shutdown);
    assert_eq!(Stage::Decompilation { update: 1 }.slot(), Slot::Notify);
    assert_eq!(Stage::ImportTable.slot(), Slot::Wait);
    assert_eq!(Stage::SleepCallers { stub: 1 }.slot(), Slot::Wait);
    assert_eq!(Stage::WaitCallers { wait: 1 }.slot(), Slot::GetInstance);
    assert_eq!(
        Stage::CallerProbe { current: String::new(), rest: Vec::new() }.slot(),
        Slot::GetInstance
    );
}
