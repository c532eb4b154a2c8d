use meticulous::{OptionExt, ResultExt};

#[test]
#[should_panic(expected = "not yet implemented: TryFromIntError")]
fn test_result_todo() {
    u16::try_from(i32::MAX).todo();
}

#[test]
#[should_panic(
    expected = "the success was expected to be assured, but the error was returned: always ok on linux: TryFromIntError"
)]
fn test_result_assured() {
    u16::try_from(i32::MAX).assured("always ok on linux");
}

#[test]
#[should_panic(
    expected = "the success was expected to be verified in the code earlier, but the error was returned: boundaries already checked: TryFromIntError"
)]
fn test_result_verified() {
    u16::try_from(i32::MAX).verified("boundaries already checked");
}

#[test]
#[should_panic(expected = "not yet implemented: None")]
fn test_option_todo() {
    "hello".strip_prefix("a").todo();
}

#[test]
#[should_panic(
    expected = "the success was expected to be assured, but the error was returned: string always starts with a"
)]
fn test_option_assured() {
    "hello"
        .strip_prefix("a")
        .assured("string always starts with a");
}

#[test]
#[should_panic(
    expected = "the success was expected to be verified in the code earlier, but the error was returned: string prefix was already checked"
)]
fn test_option_verified() {
    "hello"
        .strip_prefix("a")
        .verified("string prefix was already checked");
}
