use morel_shell::flatten;
use std::fmt;

#[derive(Debug)]
struct Located {
    line: u32,
    column: u32,
    message: &'static str,
}

impl fmt::Display for Located {
    fn fmt(&self, f: &mut fmt::Formatter<'_>) -> fmt::Result {
        f.write_str(&format!("{}:{}: {}", self.line, self.column, self.message))
    }
}

#[test]
fn flatten_passes_a_rendering_through() {
    let answer: Result<String, Located> = Ok(String::from("val x = 42 : int"));
    assert_eq!(flatten(answer), Ok(String::from("val x = 42 : int")));
}

#[test]
fn flatten_keeps_whitespace_and_newlines_of_a_rendering() {
    let answer: Result<String, Located> = Ok(String::from("  val it =\n  [1,2]\n"));
    assert_eq!(flatten(answer), Ok(String::from("  val it =\n  [1,2]\n")));
}

#[test]
fn flatten_keeps_an_empty_rendering() {
    let answer: Result<String, Located> = Ok(String::new());
    assert_eq!(flatten(answer), Ok(String::new()));
}

#[test]
fn flatten_reduces_an_error_to_its_text() {
    let answer: Result<String, Located> =
        Err(Located { line: 3, column: 14, message: "type mismatch" });
    assert_eq!(flatten(answer), Err(String::from("3:14: type mismatch")));
}

#[test]
fn flatten_leaves_a_textual_error_as_it_is() {
    let answer: Result<String, String> = Err(String::from("unbound variable or constructor: x"));
    assert_eq!(flatten(answer), Err(String::from("unbound variable or constructor: x")));
    let answer: Result<String, &str> = Err("");
    assert_eq!(flatten(answer), Err(String::new()));
}

#[test]
fn flatten_does_not_confuse_the_channels() {
    let success: Result<String, String> = Ok(String::from("error"));
    let failure: Result<String, String> = Err(String::from("error"));
    assert_ne!(flatten(success), flatten(failure));
}
