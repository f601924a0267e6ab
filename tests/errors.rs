use std::cell::Cell;
use std::fmt;

use adhocerr::{
    bail, bail_fmt, ensure, ensure_fmt, err, format_err, format_wrap_err, wrap, wrap_fmt, AnyError,
    FormatArgs, Reportable,
};

const ROOT_SITE: u64 = 1;
const WRITE_SITE: u64 = 2;
const CHECK_SITE: u64 = 3;

fn try_code_any() -> Result<(), AnyError> {
    let code = 1;

    ensure(code == 0, CHECK_SITE, "Command exited with a non zero status code")?;

    Ok(())
}

fn try_code_adhoc() -> Result<(), adhocerr::AdhocError> {
    let code = 1;

    ensure(code == 0, CHECK_SITE, "Command exited with a non zero status code")?;

    Ok(())
}

#[test]
#[should_panic]
fn ensure_coerce() {
    try_code_any().unwrap();
}

#[test]
#[should_panic]
fn ensure_impl() {
    try_code_adhoc().unwrap();
}

#[test]
fn fixed_error_shows_its_literal() {
    let e = err(ROOT_SITE, "Unable to find root marker");
    assert_eq!(e.message(), "Unable to find root marker");
    assert!(e.cause().is_none());
    assert_eq!(e.site(), ROOT_SITE);
    assert_eq!(e.chain(), vec!["Unable to find root marker".to_string()]);
}

#[test]
fn fixed_errors_from_two_sites_differ() {
    let a = err(ROOT_SITE, "same text");
    let b = err(WRITE_SITE, "same text");
    assert_eq!(a.message(), b.message());
    assert_ne!(a.site(), b.site());
}

#[test]
fn formatted_error_interpolates_named_argument() {
    let args = FormatArgs::new("missing file: {path}").arg("path", "/tmp/x");
    let e = format_err(&args);
    assert_eq!(e.message(), "missing file: /tmp/x");
    assert!(e.cause().is_none());
}

#[test]
fn formatted_error_interpolates_positional_arguments() {
    let args = FormatArgs::new("{} of {}").arg("", "3").arg("", "7");
    assert_eq!(format_err(&args).message(), "3 of 7");
}

#[test]
fn formatted_error_mixes_named_and_positional() {
    let args = FormatArgs::new("{who} saw {} and {who}").arg("", "bob").arg("who", "ann");
    assert_eq!(format_err(&args).message(), "ann saw bob and ann");
    // Positional placeholders count every argument, named or not.
    let args = FormatArgs::new("{} and {}").arg("x", "1").arg("", "2");
    assert_eq!(format_err(&args).message(), "1 and 2");
}

#[test]
fn first_argument_of_a_name_wins() {
    let args = FormatArgs::new("{a}").arg("a", "first").arg("a", "second");
    assert_eq!(args.render(), Some("first".to_string()));
}

#[test]
fn doubled_braces_stand_for_single_ones() {
    let args = FormatArgs::new("{{{x}}} }}{{");
    let args = args.arg("x", "1");
    assert_eq!(args.render(), Some("{1} }{".to_string()));
}

#[test]
fn template_without_placeholders_renders_as_is() {
    assert_eq!(FormatArgs::new("plain text").render(), Some("plain text".to_string()));
    assert_eq!(FormatArgs::new("").render(), Some(String::new()));
}

#[test]
fn non_ascii_text_is_kept() {
    let args = FormatArgs::new("größe: {n} €").arg("n", "ü");
    assert_eq!(args.render(), Some("größe: ü €".to_string()));
}

#[test]
fn unfit_templates_do_not_render() {
    assert_eq!(FormatArgs::new("missing {name}").render(), None);
    assert_eq!(FormatArgs::new("{}").render(), None);
    assert_eq!(FormatArgs::new("{} {}").arg("", "1").render(), None);
    assert_eq!(FormatArgs::new("open { never closed").render(), None);
    assert_eq!(FormatArgs::new("lone } brace").render(), None);
    assert_eq!(FormatArgs::new("{a{b}").arg("a{b", "x").render(), None);
    assert_eq!(FormatArgs::new("{other}").arg("name", "x").render(), None);
}

#[test]
fn fixed_wrap_shows_its_literal_and_keeps_the_cause() {
    let cause = err(ROOT_SITE, "disk full");
    let e = wrap(WRITE_SITE, "Failed to save results").apply(cause);
    assert_eq!(e.message(), "Failed to save results");
    assert!(!e.message().contains("disk full"));
    assert_eq!(e.site(), WRITE_SITE);
    let c = e.cause().unwrap();
    assert_eq!(c.message(), "disk full");
    assert_eq!(c.site(), ROOT_SITE);
    let back = e.into_cause();
    assert_eq!(back.site(), ROOT_SITE);
    assert_eq!(back.message(), "disk full");
}

#[test]
fn formatted_wrap_shows_formatted_text_and_keeps_the_cause() {
    let cause = err(ROOT_SITE, "disk full");
    let builder = wrap_fmt(FormatArgs::new("failed to write {name}").arg("name", "report"));
    let e = builder.apply(cause);
    assert_eq!(e.message(), "failed to write report");
    assert_eq!(e.cause().unwrap().message(), "disk full");
    assert_eq!(e.into_cause().site(), ROOT_SITE);
}

#[test]
fn format_wrap_err_formats_and_wraps() {
    let cause = format_err(&FormatArgs::new("code {}").arg("", "7"));
    let e = format_wrap_err(cause, &FormatArgs::new("step {n} failed").arg("n", "2"));
    assert_eq!(e.message(), "step 2 failed");
    assert_eq!(e.cause().unwrap().message(), "code 7");
}

#[test]
fn chain_lists_messages_down_to_the_root() {
    let root = err(ROOT_SITE, "disk full");
    let mid = wrap(WRITE_SITE, "could not write").apply(root);
    let top = wrap_fmt(FormatArgs::new("job {id} failed").arg("id", "9")).apply(mid);
    assert_eq!(
        top.chain(),
        vec![
            "job 9 failed".to_string(),
            "could not write".to_string(),
            "disk full".to_string()
        ]
    );
}

fn sum_checked(a: u32, b: u32, expected: u32) -> Result<u32, adhocerr::AdhocError> {
    ensure(a + b == expected, CHECK_SITE, "math broke")?;
    Ok(a + b)
}

#[test]
fn ensure_fails_on_false_condition() {
    let r = sum_checked(2, 2, 5);
    let e = r.unwrap_err();
    assert_eq!(e.message(), "math broke");
    assert_eq!(e.site(), CHECK_SITE);
}

#[test]
fn ensure_passes_on_true_condition() {
    assert_eq!(sum_checked(2, 2, 4).unwrap(), 4);
    assert!(ensure(true, CHECK_SITE, "never shown").is_ok());
}

#[test]
fn ensure_fmt_formats_only_on_failure() {
    // The template does not fit its arguments, which matters only when the
    // error has to be made.
    assert!(ensure_fmt(true, &FormatArgs::new("{missing}")).is_ok());
    let args = FormatArgs::new("depth {d} over limit").arg("d", "5");
    let e = ensure_fmt(false, &args).unwrap_err();
    assert_eq!(e.message(), "depth 5 over limit");
}

fn bail_when_negative(x: i32) -> Result<i32, AnyError> {
    if x < 0 {
        bail::<()>(CHECK_SITE, "negative input")?;
    }
    Ok(x * 2)
}

#[test]
fn bail_always_ends_with_error() {
    let r: Result<u8, _> = bail(ROOT_SITE, "permission denied");
    assert_eq!(r.unwrap_err().message(), "permission denied");
    assert_eq!(bail_when_negative(3).unwrap(), 6);
    assert_eq!(bail_when_negative(-1).unwrap_err().message(), "negative input");
}

#[test]
fn bail_fmt_always_ends_with_formatted_error() {
    let args = FormatArgs::new("permission denied for {}").arg("", "42");
    let r: Result<(), _> = bail_fmt(&args);
    assert_eq!(r.unwrap_err().message(), "permission denied for 42");
}

#[test]
fn any_error_holds_either_kind() {
    let a: AnyError = err(ROOT_SITE, "fixed").into();
    let b: AnyError = format_err(&FormatArgs::new("n={}").arg("", "1")).into();
    assert_eq!(a.message(), "fixed");
    assert_eq!(b.message(), "n=1");
    assert!(b.cause().is_none());
    assert_eq!(b.chain(), vec!["n=1".to_string()]);
}

struct Counted<'a> {
    text: &'a str,
    shown: &'a Cell<u32>,
}

impl fmt::Display for Counted<'_> {
    fn fmt(&self, f: &mut fmt::Formatter<'_>) -> fmt::Result {
        self.shown.set(self.shown.get() + 1);
        f.write_str(self.text)
    }
}

#[test]
fn display_argument_is_shown_exactly_once() {
    let shown = Cell::new(0);
    let value = Counted { text: "/tmp/x", shown: &shown };
    let args = FormatArgs::new("missing file: {path}").arg_display("path", &value);
    let e = format_err(&args);
    assert_eq!(e.message(), "missing file: /tmp/x");
    assert_eq!(e.message(), "missing file: /tmp/x");
    assert_eq!(shown.get(), 1);
}

#[test]
fn display_argument_of_numbers() {
    let args = FormatArgs::new("{} of {}").arg_display("", &3u8).arg_display("", &7i64);
    assert_eq!(format_err(&args).message(), "3 of 7");
}

#[test]
fn formatted_wrap_shows_argument_once() {
    let shown = Cell::new(0);
    let value = Counted { text: "y", shown: &shown };
    let lazy = wrap_fmt(FormatArgs::new("bad {v}").arg_display("v", &value));
    assert_eq!(shown.get(), 1);
    let e = lazy.apply(err(ROOT_SITE, "root"));
    assert_eq!(e.message(), "bad y");
    assert_eq!(shown.get(), 1);
}
