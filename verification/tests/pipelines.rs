use rustcommon::command::Command;
use rustcommon::pipeline::{BatchEntry, CommandPipeline, Dispatch};

fn s(text: &str) -> String {
    text.to_string()
}

fn commands(pipeline: &CommandPipeline) -> Vec<Command> {
    let mut all = Vec::new();
    for i in 0..pipeline.len() {
        all.push(pipeline.command(i).unwrap().duplicate());
    }
    all
}

#[test]
fn an_empty_batch_builds_an_empty_pipeline() {
    let pipeline = CommandPipeline::build(&vec![]);
    assert_eq!(pipeline.len(), 0);
    assert!(pipeline.is_empty());
    assert_eq!(pipeline.command(0), None);
    assert_eq!(pipeline.dispatch(), Dispatch::Nothing);
}

#[test]
fn a_value_with_expiry_is_one_setex() {
    let entries = vec![BatchEntry::SetEx { key: s("k"), value: s("v"), seconds: 30 }];
    let pipeline = CommandPipeline::build(&entries);
    assert_eq!(commands(&pipeline), vec![Command::SetEx { key: s("k"), seconds: 30, value: s("v") }]);
}

#[test]
fn a_field_map_with_expiry_is_hmset_then_expire() {
    let fields = vec![(s("f1"), s("v1")), (s("f2"), s("v2"))];
    let entries = vec![BatchEntry::HmSetExpire { key: s("h"), fields: fields.clone(), seconds: 60 }];
    let pipeline = CommandPipeline::build(&entries);
    assert_eq!(
        commands(&pipeline),
        vec![Command::HmSet { key: s("h"), fields }, Command::Expire { key: s("h"), seconds: 60 }]
    );
}

#[test]
fn store_if_absent_is_one_setnx() {
    let entries = vec![BatchEntry::SetNx { key: s("k"), value: s("v") }];
    let pipeline = CommandPipeline::build(&entries);
    assert_eq!(commands(&pipeline), vec![Command::SetNx { key: s("k"), value: s("v") }]);
}

#[test]
fn store_if_absent_with_expiry_is_setnx_then_expire() {
    let entries = vec![BatchEntry::SetNxExpire { key: s("k"), value: s("v"), seconds: 360 }];
    let pipeline = CommandPipeline::build(&entries);
    assert_eq!(
        commands(&pipeline),
        vec![Command::SetNx { key: s("k"), value: s("v") }, Command::Expire { key: s("k"), seconds: 360 }]
    );
}

#[test]
fn field_maps_expand_in_pairs() {
    let mut entries = Vec::new();
    for k in 0..5usize {
        entries.push(BatchEntry::HmSetExpire {
            key: format!("key{}", k),
            fields: vec![(format!("field{}", k), format!("value{}", k))],
            seconds: 100 + k,
        });
    }
    let pipeline = CommandPipeline::build(&entries);
    assert_eq!(pipeline.len(), 10);
    for k in 0..5usize {
        assert_eq!(
            *pipeline.command(2 * k).unwrap(),
            Command::HmSet {
                key: format!("key{}", k),
                fields: vec![(format!("field{}", k), format!("value{}", k))],
            }
        );
        assert_eq!(
            *pipeline.command(2 * k + 1).unwrap(),
            Command::Expire { key: format!("key{}", k), seconds: 100 + k }
        );
    }
}

#[test]
fn a_mixed_batch_keeps_the_order_of_its_entries() {
    let entries = vec![
        BatchEntry::SetNxExpire { key: s("a"), value: s("1"), seconds: 10 },
        BatchEntry::SetEx { key: s("b"), value: s("2"), seconds: 20 },
        BatchEntry::HmSetExpire { key: s("c"), fields: vec![], seconds: 30 },
        BatchEntry::SetNx { key: s("d"), value: s("4") },
    ];
    let pipeline = CommandPipeline::build(&entries);
    assert_eq!(
        commands(&pipeline),
        vec![
            Command::SetNx { key: s("a"), value: s("1") },
            Command::Expire { key: s("a"), seconds: 10 },
            Command::SetEx { key: s("b"), seconds: 20, value: s("2") },
            Command::HmSet { key: s("c"), fields: vec![] },
            Command::Expire { key: s("c"), seconds: 30 },
            Command::SetNx { key: s("d"), value: s("4") },
        ]
    );
}

#[test]
fn a_pipeline_with_commands_goes_out_whole() {
    let entries = vec![BatchEntry::SetNx { key: s("k"), value: s("v") }];
    match CommandPipeline::build(&entries).dispatch() {
        Dispatch::RoundTrip(pipeline) => assert_eq!(pipeline.len(), 1),
        Dispatch::Nothing => panic!("a pipeline with a command needs a round trip"),
    }
}

#[test]
fn the_same_key_twice_gives_two_entries_worth_of_commands() {
    let entries = vec![
        BatchEntry::SetEx { key: s("k"), value: s("old"), seconds: 1 },
        BatchEntry::SetEx { key: s("k"), value: s("new"), seconds: 2 },
    ];
    let pipeline = CommandPipeline::build(&entries);
    assert_eq!(
        commands(&pipeline),
        vec![
            Command::SetEx { key: s("k"), seconds: 1, value: s("old") },
            Command::SetEx { key: s("k"), seconds: 2, value: s("new") },
        ]
    );
}
