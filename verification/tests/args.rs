use promptr::args::{read_slots, ArgField, ArgValue, ArgsBlob, DecodeError, FieldKind};
use promptr::segment::battery_status::BatteryStatus;
use promptr::segment::command_status::CommandStatus;
use promptr::segment::git::Git;
use promptr::segment::paths::{Args as PathsArgs, Paths};
use promptr::segment::rvm::Rvm;
use promptr::segment::screen::{Args as ScreenArgs, Screen};
use promptr::segment::ToSegment;

fn field(name: &str, value: ArgValue) -> ArgField {
    ArgField { name: String::from(name), value }
}

#[test]
fn slots_point_at_the_members() {
    let names = vec!["a", "b", "c"];
    let kinds = vec![FieldKind::Flag, FieldKind::Text, FieldKind::Number];
    let blob = ArgsBlob::Object(vec![
        field("c", ArgValue::Number),
        field("a", ArgValue::Bool(true)),
    ]);
    assert_eq!(Ok(vec![Some(1), None, Some(0)]), read_slots(&blob, &names, &kinds));
    assert_eq!(Ok(vec![None, None, None]), read_slots(&ArgsBlob::Object(vec![]), &names, &kinds));
}

#[test]
fn refused_blocks() {
    let names = vec!["a", "b"];
    let kinds = vec![FieldKind::Flag, FieldKind::Text];
    assert_eq!(Err(DecodeError::NotAnObject), read_slots(&ArgsBlob::Null, &names, &kinds));
    assert_eq!(Err(DecodeError::NotAnObject), read_slots(&ArgsBlob::Other, &names, &kinds));
    let unknown = ArgsBlob::Object(vec![field("a", ArgValue::Bool(true)), field("z", ArgValue::Null)]);
    assert_eq!(Err(DecodeError::UnknownField(1)), read_slots(&unknown, &names, &kinds));
    let twice = ArgsBlob::Object(vec![
        field("a", ArgValue::Bool(true)),
        field("b", ArgValue::Text(String::new())),
        field("a", ArgValue::Bool(true)),
    ]);
    assert_eq!(Err(DecodeError::DuplicateField(2)), read_slots(&twice, &names, &kinds));
    for wrong in [ArgValue::Null, ArgValue::Number, ArgValue::Text(String::from("true")), ArgValue::Nested] {
        let blob = ArgsBlob::Object(vec![field("a", wrong)]);
        assert_eq!(Err(DecodeError::InvalidValue(0)), read_slots(&blob, &names, &kinds));
    }
    let first = ArgsBlob::Object(vec![field("b", ArgValue::Bool(true)), field("z", ArgValue::Null)]);
    assert_eq!(Err(DecodeError::InvalidValue(0)), read_slots(&first, &names, &kinds));
}

#[test]
fn flags_keep_their_defaults() {
    assert_eq!(
        Ok(ScreenArgs {
            show_screen_icon: true,
            show_screen_name: true,
            show_screen_pid: false,
            show_window_number: true,
        }),
        Screen::decode(&ArgsBlob::Object(vec![]))
    );
    assert_eq!(
        Ok(ScreenArgs {
            show_screen_icon: false,
            show_screen_name: true,
            show_screen_pid: true,
            show_window_number: true,
        }),
        Screen::decode(&ArgsBlob::Object(vec![
            field("show_screen_pid", ArgValue::Bool(true)),
            field("show_screen_icon", ArgValue::Bool(false)),
        ]))
    );
    assert_eq!(
        Ok(PathsArgs { show_root: true, show_dir_stack: false }),
        Paths::decode(&ArgsBlob::Object(vec![
            field("show_dir_stack", ArgValue::Bool(false)),
            field("show_root", ArgValue::Bool(true)),
        ]))
    );
}

#[test]
fn defaults_of_arguments() {
    assert_eq!(Ok(promptr::segment::git::Args::default()), Git::decode(&ArgsBlob::Object(vec![])));
    let git = promptr::segment::git::Args::default();
    assert!(git.show_vcs_badge && git.show_stash && git.show_in_progress);
    assert!(git.show_bisect && git.show_cherry_pick && git.show_merge && git.show_rebase);
    assert_eq!(Ok(promptr::segment::rvm::Args { force_show: false }), Rvm::decode(&ArgsBlob::Object(vec![])));
    assert_eq!(promptr::segment::rvm::Args { force_show: false }, promptr::segment::rvm::Args::default());
    assert_eq!(PathsArgs { show_root: false, show_dir_stack: true }, PathsArgs::default());
    let hostname = promptr::segment::hostname::Args::default();
    assert!(!hostname.show_domain && hostname.show_jail_indicator && !hostname.show_os_indicator);
    assert_eq!(
        promptr::segment::username::SudoIndicator::Symbol,
        promptr::segment::username::Args::default().sudo_indicator
    );
}

#[test]
fn providers_without_flags_refuse_fields() {
    assert!(CommandStatus::decode(&ArgsBlob::Object(vec![])).is_ok());
    assert_eq!(
        Err(DecodeError::UnknownField(0)),
        CommandStatus::decode(&ArgsBlob::Object(vec![field("x", ArgValue::Null)]))
    );
    assert!(BatteryStatus::decode(&ArgsBlob::Object(vec![field(
        "low_battery_threshold",
        ArgValue::Number
    )]))
    .is_ok());
    assert_eq!(
        Err(DecodeError::InvalidValue(0)),
        BatteryStatus::decode(&ArgsBlob::Object(vec![field(
            "low_battery_threshold",
            ArgValue::Text(String::from("50"))
        )]))
    );
}
