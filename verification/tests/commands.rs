use rustcommon::command::{clone_fields, Command};

fn s(text: &str) -> String {
    text.to_string()
}

#[test]
fn get_goes_on_the_wire_as_name_and_key() {
    let command = Command::Get { key: s("user:1") };
    assert_eq!(command.name(), "GET");
    assert_eq!(command.wire_args(), vec![s("GET"), s("user:1")]);
}

#[test]
fn setex_puts_the_seconds_before_the_value() {
    let command = Command::SetEx { key: s("test1"), seconds: 300, value: s("jjj") };
    assert_eq!(command.wire_args(), vec![s("SETEX"), s("test1"), s("300"), s("jjj")]);
}

#[test]
fn setnx_goes_on_the_wire_as_key_and_value() {
    let command = Command::SetNx { key: s("k"), value: s("v") };
    assert_eq!(command.wire_args(), vec![s("SETNX"), s("k"), s("v")]);
}

#[test]
fn hmset_lays_its_fields_out_in_order() {
    let fields = vec![(s("name"), s("ann")), (s("age"), s("41")), (s("city"), s("")),];
    let command = Command::HmSet { key: s("h"), fields };
    assert_eq!(
        command.wire_args(),
        vec![s("HMSET"), s("h"), s("name"), s("ann"), s("age"), s("41"), s("city"), s("")]
    );
}

#[test]
fn hmset_without_fields_is_name_and_key() {
    let command = Command::HmSet { key: s("h"), fields: vec![] };
    assert_eq!(command.wire_args(), vec![s("HMSET"), s("h")]);
}

#[test]
fn expire_auth_and_select_go_on_the_wire() {
    let expire = Command::Expire { key: s("k"), seconds: 0 };
    assert_eq!(expire.wire_args(), vec![s("EXPIRE"), s("k"), s("0")]);
    let auth = Command::Auth { password: s("secret") };
    assert_eq!(auth.wire_args(), vec![s("AUTH"), s("secret")]);
    let select = Command::Select { index: 12 };
    assert_eq!(select.wire_args(), vec![s("SELECT"), s("12")]);
    let negative = Command::Select { index: -3 };
    assert_eq!(negative.wire_args(), vec![s("SELECT"), s("-3")]);
}

#[test]
fn the_largest_expiry_is_rendered_whole() {
    let command = Command::Expire { key: s("k"), seconds: usize::MAX };
    assert_eq!(command.wire_args()[2], usize::MAX.to_string());
}

#[test]
fn a_duplicate_equals_the_command() {
    let fields = vec![(s("a"), s("1")), (s("b"), s("2"))];
    let command = Command::HmSet { key: s("h"), fields };
    assert_eq!(command.duplicate(), command);
    let setex = Command::SetEx { key: s("k"), seconds: 9, value: s("v") };
    assert_eq!(setex.duplicate(), setex);
}

#[test]
fn cloned_fields_keep_their_order() {
    let fields = vec![(s("z"), s("26")), (s("a"), s("1"))];
    assert_eq!(clone_fields(&fields), fields);
}
