use simplegen::CodeBuffer;

#[test]
fn code_buffer_should_write_to_buffer() {
    let mut printer = CodeBuffer::new(4);
    printer.println("testing");
    let actual = printer.to_string();

    assert_eq!("testing", actual);
}

#[test]
fn code_buffer_default_should_return_valid_printer() {
    let mut printer = CodeBuffer::default();
    printer.println("default");
    let actual = printer.to_string();

    assert_eq!("default", actual);
}

#[test]
fn code_buffer_should_indent_on_indent_right() {
    // Don't use default as we are relying on the indentation being a
    // particular length.
    let mut printer = CodeBuffer::new(4);
    printer.indent_right();
    printer.println("testing");
    let actual = printer.to_string();

    assert_eq!("    testing", actual);
}

#[test]
fn code_buffer_should_indent_on_indent_left() {
    let mut printer = CodeBuffer::new(4);
    printer.indent_right();
    printer.indent_right();
    printer.indent_left();
    printer.println("testing");

    let actual = printer.to_string();

    assert_eq!("    testing", actual);
}

#[test]
fn code_buffer_printer_should_not_unindent_beyond_level_zero() {
    let mut printer = CodeBuffer::default();
    printer.indent_left();
    printer.println("testing");
    let actual = printer.to_string();

    assert_eq!("testing", actual);
}

#[test]
fn code_buffer_printer_should_handle_indent_then_unindent() {
    let mut printer = CodeBuffer::new(4);

    let expected = "fn do_something() {\n    println!(\"Hello, World!\");\n}";

    printer.println("fn do_something() {");
    printer.indent_right();
    printer.println("println!(\"Hello, World!\");");
    printer.indent_left();
    printer.println("}");
    let actual = printer.to_string();

    assert_eq!(expected, actual);
}

#[test]
fn code_buffer_printer_should_maintain_indent_across_multiple_println() {
    let mut printer = CodeBuffer::new(4);

    let expected = "        testing1\n        testing2";

    printer.indent_right();
    printer.indent_right();
    printer.println("testing1");
    printer.println("testing2");
    let actual = printer.to_string();

    assert_eq!(expected, actual);
}

#[test]
fn code_buffer_println_left_should_indent_left_then_print() {
    let mut printer = CodeBuffer::new(4);
    printer.indent_right();
    printer.indent_right();
    printer.println_left("testing");
    let actual = printer.to_string();

    assert_eq!("    testing", actual);
}

#[test]
fn code_buffer_println_right_should_indent_right_then_print() {
    let mut printer = CodeBuffer::new(4);
    printer.println_right("testing");
    let actual = printer.to_string();

    assert_eq!("    testing", actual);
}
