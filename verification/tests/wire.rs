use rustcommon::command::Command;
use rustcommon::pipeline::{BatchEntry, CommandPipeline};
use rustcommon::wire::{to_redis_cmd, to_redis_pipeline};

fn s(text: &str) -> String {
    text.to_string()
}

#[test]
fn a_client_command_packs_name_and_operands() {
    let command = Command::SetEx { key: s("test1"), seconds: 300, value: s("jjj") };
    let packed = to_redis_cmd(&command).get_packed_command();
    let expected = "*4\r\n$5\r\nSETEX\r\n$5\r\ntest1\r\n$3\r\n300\r\n$3\r\njjj\r\n";
    assert_eq!(packed, expected.as_bytes().to_vec());
}

#[test]
fn a_client_command_keeps_every_argument() {
    let command = Command::HmSet {
        key: s("h"),
        fields: vec![(s("a"), s("1")), (s("b"), s(""))],
    };
    let client = to_redis_cmd(&command);
    let mut args: Vec<Vec<u8>> = Vec::new();
    for arg in client.args_iter() {
        match arg {
            redis::Arg::Simple(bytes) => args.push(bytes.to_vec()),
            _ => panic!("no cursor was added"),
        }
    }
    let expected: Vec<Vec<u8>> = vec![
        b"HMSET".to_vec(),
        b"h".to_vec(),
        b"a".to_vec(),
        b"1".to_vec(),
        b"b".to_vec(),
        b"".to_vec(),
    ];
    assert_eq!(args, expected);
}

#[test]
fn a_client_command_holds_text_as_utf8() {
    let command = Command::Get { key: s("cl\u{e9}") };
    let packed = to_redis_cmd(&command).get_packed_command();
    let expected = "*2\r\n$3\r\nGET\r\n$4\r\ncl\u{e9}\r\n";
    assert_eq!(packed, expected.as_bytes().to_vec());
}

#[test]
fn an_empty_client_pipeline_packs_to_nothing() {
    let client = to_redis_pipeline(&CommandPipeline::build(&vec![]));
    assert_eq!(client.len(), 0);
    assert_eq!(client.get_packed_pipeline(), Vec::<u8>::new());
}

#[test]
fn a_client_pipeline_packs_its_commands_in_order() {
    let entries = vec![
        BatchEntry::SetNxExpire { key: s("test1_nx"), value: s("jjj2"), seconds: 300 },
        BatchEntry::SetNxExpire { key: s("test2_nx"), value: s("kkk2"), seconds: 360 },
    ];
    let client = to_redis_pipeline(&CommandPipeline::build(&entries));
    assert_eq!(client.len(), 4);
    assert!(!client.is_transaction());
    let expected = "*3\r\n$5\r\nSETNX\r\n$8\r\ntest1_nx\r\n$4\r\njjj2\r\n\
                    *3\r\n$6\r\nEXPIRE\r\n$8\r\ntest1_nx\r\n$3\r\n300\r\n\
                    *3\r\n$5\r\nSETNX\r\n$8\r\ntest2_nx\r\n$4\r\nkkk2\r\n\
                    *3\r\n$6\r\nEXPIRE\r\n$8\r\ntest2_nx\r\n$3\r\n360\r\n";
    assert_eq!(client.get_packed_pipeline(), expected.as_bytes().to_vec());
}

#[test]
fn a_client_pipeline_of_field_maps_packs_in_pairs() {
    let entries = vec![
        BatchEntry::HmSetExpire { key: s("h1"), fields: vec![(s("f"), s("v"))], seconds: 5 },
        BatchEntry::HmSetExpire { key: s("h2"), fields: vec![], seconds: 6 },
    ];
    let client = to_redis_pipeline(&CommandPipeline::build(&entries));
    let expected = "*4\r\n$5\r\nHMSET\r\n$2\r\nh1\r\n$1\r\nf\r\n$1\r\nv\r\n\
                    *3\r\n$6\r\nEXPIRE\r\n$2\r\nh1\r\n$1\r\n5\r\n\
                    *2\r\n$5\r\nHMSET\r\n$2\r\nh2\r\n\
                    *3\r\n$6\r\nEXPIRE\r\n$2\r\nh2\r\n$1\r\n6\r\n";
    assert_eq!(client.get_packed_pipeline(), expected.as_bytes().to_vec());
}
