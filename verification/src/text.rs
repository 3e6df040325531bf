//! Text that crosses the border to the native side.

use vstd::prelude::*;

verus! {

/// A native string object as it was read: the object itself, and its UTF-8
/// bytes, may each be missing.
#[derive(Debug, PartialEq)]
pub enum NativeString {
    /// There is no string object.
    Nil,
    /// The object gives no UTF-8 bytes.
    NoBytes,
    /// The object's bytes, without the terminating zero.
    Bytes(Vec<u8>),
}

/// The text that a string object holds, where it holds one.
pub open spec fn native_text(string: NativeString) -> Option<Seq<char>> {
    match string {
        NativeString::Bytes(bytes) => if vstd::utf8::valid_utf8(bytes@) {
            Some(vstd::utf8::decode_utf8(bytes@))
        } else {
            None
        },
        _ => None,
    }
}

/// Whether two texts hold the same characters.
pub fn same_text(a: &str, b: &str) -> (same: bool)
    ensures
        same == (a@ == b@),
{
    let mut a_chars = a.chars();
    let mut b_chars = b.chars();
    let ghost mut done: int = 0;
    proof {
        assert(a@.skip(0) =~= a@);
        assert(b@.skip(0) =~= b@);
    }
    loop
        invariant
            0 <= done <= a@.len(),
            done <= b@.len(),
            forall|i: int| 0 <= i < done ==> a@[i] == b@[i],
            vstd::std_specs::iter::IteratorSpec::remaining(&a_chars) == a@.skip(done),
            vstd::std_specs::iter::IteratorSpec::remaining(&b_chars) == b@.skip(done),
        decreases a@.len() - done,
    {
        match (a_chars.next(), b_chars.next()) {
            (Some(x), Some(y)) => {
                proof {
                    assert(x == a@[done]);
                    assert(y == b@[done]);
                }
                if x != y {
                    return false;
                }
                proof {
                    assert(a@.skip(done).drop_first() =~= a@.skip(done + 1));
                    assert(b@.skip(done).drop_first() =~= b@.skip(done + 1));
                    done = done + 1;
                }
            },
            (None, None) => {
                proof {
                    assert(a@ =~= b@);
                }
                return true;
            },
            _ => {
                return false;
            },
        }
    }
}

/// `std::str::from_utf8`: the text that a slice of bytes holds, where the bytes
/// are valid UTF-8, and nothing where they are not.
#[verifier::external_body]
fn from_utf8(bytes: &[u8]) -> (text: Option<&str>)
    ensures
        text is Some <==> vstd::utf8::valid_utf8(bytes@),
        text is Some ==> text->0@ == vstd::utf8::decode_utf8(bytes@),
{
    std::str::from_utf8(bytes).ok()
}

/// The text that a string object holds, where it holds one.
pub fn read_native_string(string: &NativeString) -> (text: Option<String>)
    ensures
        text is Some <==> native_text(*string) is Some,
        text is Some ==> text->0@ == native_text(*string)->0,
{
    match string {
        NativeString::Bytes(bytes) => match from_utf8(bytes.as_slice()) {
            Some(text) => Some(text.to_owned()),
            None => None,
        },
        _ => None,
    }
}

/// The value of the native text field: a field without a string object is an
/// empty one, and one whose string cannot be read has no value.
pub open spec fn proxy_text(string: NativeString) -> Option<Seq<char>> {
    match string {
        NativeString::Nil => Some(Seq::empty()),
        _ => native_text(string),
    }
}

/// The value of the native text field.
pub fn native_proxy_text(string: &NativeString) -> (text: Option<String>)
    ensures
        text is Some <==> proxy_text(*string) is Some,
        text is Some ==> text->0@ == proxy_text(*string)->0,
{
    match string {
        NativeString::Nil => Some(String::new()),
        _ => read_native_string(string),
    }
}

/// What the log says of a panic that was stopped at the native border: the
/// message that the panic carries, as a literal or as an owned text, and
/// `"unknown panic"` for one that carries neither.
pub fn swallowed_panic_message(literal: Option<&str>, owned: Option<String>) -> (message: String)
    ensures
        message@ == match (literal, owned) {
            (Some(text), _) => text@,
            (None, Some(text)) => text@,
            (None, None) => "unknown panic"@,
        },
{
    match (literal, owned) {
        (Some(text), _) => text.to_owned(),
        (None, Some(text)) => text,
        (None, None) => "unknown panic".to_owned(),
    }
}

/// The bytes of any text are read as that text, and only the bytes of a text are
/// read at all. There is no text without bytes.
pub proof fn law_bytes_are_read_as_their_text(text: Seq<char>, bytes: Vec<u8>)
    ensures
        bytes@ == vstd::utf8::encode_utf8(text) ==> native_text(NativeString::Bytes(bytes)) == Some(
            text,
        ),
        native_text(NativeString::Bytes(bytes)) is Some ==> vstd::utf8::encode_utf8(
            native_text(NativeString::Bytes(bytes))->0,
        ) == bytes@,
        native_text(NativeString::Nil) is None,
        native_text(NativeString::NoBytes) is None,
{
    vstd::utf8::encode_utf8_valid_utf8(text);
    vstd::utf8::encode_utf8_decode_utf8(text);
    if vstd::utf8::valid_utf8(bytes@) {
        vstd::utf8::decode_utf8_encode_utf8(bytes@);
    }
}

/// The native text field has the text that its bytes are of. Without a string it
/// is empty, and with one that cannot be read it has no value.
pub proof fn law_field_has_the_text_of_its_bytes(text: Seq<char>, bytes: Vec<u8>)
    ensures
        bytes@ == vstd::utf8::encode_utf8(text) ==> proxy_text(NativeString::Bytes(bytes)) == Some(
            text,
        ),
        proxy_text(NativeString::Bytes(bytes)) is Some ==> vstd::utf8::encode_utf8(
            proxy_text(NativeString::Bytes(bytes))->0,
        ) == bytes@,
        proxy_text(NativeString::Nil) is Some,
        proxy_text(NativeString::Nil)->0.len() == 0,
        proxy_text(NativeString::NoBytes) is None,
{
    law_bytes_are_read_as_their_text(text, bytes);
}

/// A log says what a panic carries: the literal first, then the owned text, and a
/// fixed phrase where there is neither. Texts are the same exactly where their
/// characters are.
pub proof fn law_log_says_what_the_panic_carries(
    literal: Option<&str>,
    owned: Option<String>,
    message: String,
    a: &str,
    b: &str,
    same: bool,
)
    requires
        call_ensures(swallowed_panic_message, (literal, owned), message),
        call_ensures(same_text, (a, b), same),
    ensures
        literal matches Some(text) ==> message@ == text@,
        literal is None ==> (owned matches Some(text) ==> message@ == text@),
        literal is None && owned is None ==> message@ == "unknown panic"@,
        same <==> a@ == b@,
{
}

} // verus!
