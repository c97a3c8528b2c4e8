use reallystart::messages::{
    confirmation, process_handle_failure, thread_handle_failure, usage, CAPTION,
};

#[test]
fn caption_of_the_dialogs() {
    assert_eq!(CAPTION, "Really Start?");
}

#[test]
fn usage_names_the_program() {
    assert_eq!(usage("reallystart.exe"), "Usage: reallystart.exe TITLE PROGRAM [ARG...]");
    assert_eq!(usage(""), "Usage:  TITLE PROGRAM [ARG...]");
}

#[test]
fn confirmation_names_the_title() {
    assert_eq!(confirmation("Notepad"), "Really start Notepad?");
    assert_eq!(confirmation(""), "Really start ?");
}

#[test]
fn handle_failures_carry_the_description() {
    assert_eq!(
        process_handle_failure("The handle is invalid."),
        "Failed to close process handle: The handle is invalid."
    );
    assert_eq!(
        thread_handle_failure("The handle is invalid."),
        "Failed to close thread handle: The handle is invalid."
    );
}
