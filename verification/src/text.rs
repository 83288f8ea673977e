use crate::complex::Complex;
use core::fmt::Debug;
use core::fmt::Write;
use vstd::prelude::*;
use vstd::string::StringExecFns;

verus! {

/// `core::fmt::Formatter`, carried through as an opaque value.
#[verifier::external_type_specification]
#[verifier::external_body]
pub struct ExFormatter<'a>(core::fmt::Formatter<'a>);

/// `core::fmt::Error`, carried through as an opaque value.
#[verifier::external_type_specification]
#[verifier::external_body]
pub struct ExFmtError(core::fmt::Error);

/// The text that has been handed to the formatter so far, in the order in
/// which it was handed over.
pub uninterp spec fn formatter_text(f: core::fmt::Formatter<'_>) -> Seq<char>;

/// The text `(re, imi)` for the texts `re` and `im` of the two components:
/// an opening parenthesis, `re`, a comma and a space, `im`, the letter `i`
/// and a closing parenthesis.
pub open spec fn debug_text(re: Seq<char>, im: Seq<char>) -> Seq<char> {
    seq!['('] + re + seq![',', ' '] + im + seq!['i', ')']
}

/// Puts the texts of the two components into the form `(re, imi)`.
pub fn render_debug(re: &str, im: &str) -> (out: String)
    ensures
        out@ == debug_text(re@, im@),
{
    let mut out = String::from_str("(");
    out.append(re);
    out.append(", ");
    out.append(im);
    out.append("i)");
    proof {
        reveal_strlit("(");
        reveal_strlit(", ");
        reveal_strlit("i)");
    }
    out
}

/// The debug text from what the scalar's `Debug` gave for each component:
/// the framed text where both gave a text, else the error of the real
/// component, or that of the imaginary one where only it failed.
pub fn frame_debug(
    re: Result<String, core::fmt::Error>,
    im: Result<String, core::fmt::Error>,
) -> (out: Result<String, core::fmt::Error>)
    ensures
        (match (re, im) {
            (Ok(r), Ok(i)) => out matches Ok(text) && text@ == debug_text(r@, i@),
            (Err(e), _) => out == Err::<String, core::fmt::Error>(e),
            (Ok(_), Err(e)) => out == Err::<String, core::fmt::Error>(e),
        }),
{
    match re {
        Err(e) => Err(e),
        Ok(r) => match im {
            Err(e) => Err(e),
            Ok(i) => Ok(render_debug(r.as_str(), i.as_str())),
        },
    }
}

/// `write!(text, "{:?}", value)` into an empty `String`: the text that the
/// scalar's own `Debug` writes for `value`, or the error that it gave.
/// Nothing is claimed of either.
#[verifier::external_body]
fn scalar_debug<T: Debug>(value: &T) -> (out: Result<String, core::fmt::Error>) {
    let mut text = String::new();
    match write!(text, "{:?}", value) {
        Ok(()) => Ok(text),
        Err(e) => Err(e),
    }
}

/// `Formatter::write_str`: hands `text` to the formatter. Where it returns
/// `Ok`, the text handed to the formatter so far has grown by `text` and by
/// nothing else.
#[verifier::external_body]
fn write_text(f: &mut core::fmt::Formatter<'_>, text: &str) -> (out: Result<
    (),
    core::fmt::Error,
>)
    ensures
        out is Ok ==> formatter_text(*final(f)) == formatter_text(*old(f)) + text@,
{
    f.write_str(text)
}

/// `Debug::fmt` of the scalar, with the caller's formatter and its options.
/// A `Debug` impl can only write to the formatter: where it returns `Ok`, the
/// text handed to the formatter so far has grown by some text, of which
/// nothing more is claimed.
#[verifier::external_body]
fn write_scalar<T: Debug>(value: &T, f: &mut core::fmt::Formatter<'_>) -> (out: Result<
    (),
    core::fmt::Error,
>)
    ensures
        out is Ok ==> exists|text: Seq<char>|
            formatter_text(*final(f)) == formatter_text(*old(f)) + text,
{
    Debug::fmt(value, f)
}

impl<T: Copy + Debug> Complex<T> {
    /// The debug text of the value, such as `(3, 2i)` or `(3, -2i)`. The two
    /// parts are whatever the scalar's `Debug` writes for the components;
    /// where that fails for either, its error is returned.
    pub fn debug_string(&self) -> (out: Result<String, core::fmt::Error>)
        ensures
            out matches Ok(text) ==> exists|re: Seq<char>, im: Seq<char>|
                text@ == debug_text(re, im),
    {
        let re = scalar_debug(&self.real);
        let im = scalar_debug(&self.imaginary);
        frame_debug(re, im)
    }
}

impl<T: Copy + Debug> Debug for Complex<T> {
    /// Writes `(`, the real component, `, `, the imaginary component, `i`
    /// and `)`, in this order, each component through the scalar's own
    /// `Debug` with the caller's formatter. The first error ends the writing
    /// and is returned.
    fn fmt(&self, f: &mut core::fmt::Formatter<'_>) -> (out: Result<(), core::fmt::Error>)
        ensures
            out is Ok ==> exists|re: Seq<char>, im: Seq<char>|
                formatter_text(*final(f)) == formatter_text(*old(f)) + debug_text(re, im),
    {
        let ghost start = formatter_text(*f);
        match write_text(f, "(") {
            Err(e) => {
                return Err(e);
            },
            Ok(()) => {},
        }
        let ghost opened = formatter_text(*f);
        match write_scalar(&self.real, f) {
            Err(e) => {
                return Err(e);
            },
            Ok(()) => {},
        }
        let ghost re = choose|text: Seq<char>| formatter_text(*f) == opened + text;
        match write_text(f, ", ") {
            Err(e) => {
                return Err(e);
            },
            Ok(()) => {},
        }
        let ghost parted = formatter_text(*f);
        match write_scalar(&self.imaginary, f) {
            Err(e) => {
                return Err(e);
            },
            Ok(()) => {},
        }
        let ghost im = choose|text: Seq<char>| formatter_text(*f) == parted + text;
        match write_text(f, "i") {
            Err(e) => {
                return Err(e);
            },
            Ok(()) => {},
        }
        let out = write_text(f, ")");
        proof {
            reveal_strlit("(");
            reveal_strlit(", ");
            reveal_strlit("i");
            reveal_strlit(")");
            if out is Ok {
                assert(formatter_text(*f) =~= start + debug_text(re, im));
            }
        }
        out
    }
}

} // verus!
