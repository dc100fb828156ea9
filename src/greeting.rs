//! The greeting: a fixed phrase followed by a bracketed tag naming the
//! enabled features, in the order `foo`, then `bar`.

use vstd::prelude::*;

verus! {

/// The two independent build switches that select the greeting's tag.
#[derive(Clone, Copy, Debug, PartialEq, Eq, Structural)]
pub struct Features {
    pub foo: bool,
    pub bar: bool,
}

/// The tag: `foo` when that switch is on, then `bar` when that one is on.
pub open spec fn feature_tag(f: Features) -> Seq<char> {
    (if f.foo { "foo"@ } else { Seq::<char>::empty() }) + (if f.bar { "bar"@ } else {
        Seq::<char>::empty()
    })
}

/// `Hello from Rust [feature=<tag>]`.
pub open spec fn greeting(f: Features) -> Seq<char> {
    "Hello from Rust [feature="@ + feature_tag(f) + "]"@
}

/// The greeting as the native callback receives it: one byte per character,
/// then a terminating zero byte.
pub open spec fn c_greeting(f: Features) -> Seq<u8> {
    greeting(f).map_values(|c: char| c as u8).push(0u8)
}

/// Every character of the greeting is ASCII and none is the zero character.
pub proof fn lemma_greeting_ascii_nonzero(f: Features)
    ensures
        forall|i: int|
            0 <= i < greeting(f).len() ==> '\u{1}' <= #[trigger] greeting(f)[i] <= '\u{7f}',
{
    reveal_strlit("Hello from Rust [feature=");
    reveal_strlit("foo");
    reveal_strlit("bar");
    reveal_strlit("]");
}

/// For each of the four settings of the switches the greeting is exactly
/// one of `Hello from Rust [feature=]`, `Hello from Rust [feature=foo]`,
/// `Hello from Rust [feature=bar]` and `Hello from Rust [feature=foobar]`.
pub proof fn lemma_greeting_by_features(f: Features)
    ensures
        !f.foo && !f.bar ==> greeting(f) == "Hello from Rust [feature=]"@,
        f.foo && !f.bar ==> greeting(f) == "Hello from Rust [feature=foo]"@,
        !f.foo && f.bar ==> greeting(f) == "Hello from Rust [feature=bar]"@,
        f.foo && f.bar ==> greeting(f) == "Hello from Rust [feature=foobar]"@,
{
    reveal_strlit("Hello from Rust [feature=");
    reveal_strlit("foo");
    reveal_strlit("bar");
    reveal_strlit("]");
    reveal_strlit("Hello from Rust [feature=]");
    reveal_strlit("Hello from Rust [feature=foo]");
    reveal_strlit("Hello from Rust [feature=bar]");
    reveal_strlit("Hello from Rust [feature=foobar]");
    assert(greeting(f) =~= (if f.foo && f.bar {
        "Hello from Rust [feature=foobar]"@
    } else if f.foo {
        "Hello from Rust [feature=foo]"@
    } else if f.bar {
        "Hello from Rust [feature=bar]"@
    } else {
        "Hello from Rust [feature=]"@
    }));
}

/// The greeting depends on the switches alone: two builds with the same
/// switches give the same characters and the same zero-terminated bytes.
pub proof fn lemma_greeting_deterministic(a: Features, b: Features)
    requires
        a == b,
    ensures
        greeting(a) == greeting(b),
        c_greeting(a) == c_greeting(b),
{
}

/// Builds the greeting for the given switches.
pub fn hello(features: Features) -> (r: String)
    ensures
        r@ == greeting(features),
{
    let mut s = String::from_str("Hello from Rust [feature=");
    if features.foo {
        s.append("foo");
    }
    if features.bar {
        s.append("bar");
    }
    s.append("]");
    assert(s@ =~= greeting(features));
    s
}

/// Builds the greeting as a zero-terminated byte string: its only zero byte
/// is the last one.
pub fn hello_c_string(features: Features) -> (r: Vec<u8>)
    ensures
        r@ == c_greeting(features),
        r@.len() == greeting(features).len() + 1,
        r@.last() == 0u8,
        forall|i: int| 0 <= i < r@.len() - 1 ==> #[trigger] r@[i] != 0u8,
{
    let s = hello(features);
    let text: &str = s.as_str();
    proof {
        lemma_greeting_ascii_nonzero(features);
        assert(vstd::string::is_ascii(text));
        vstd::string::is_ascii_spec_bytes(text);
    }
    let mut bytes = text.as_bytes_vec();
    bytes.push(0u8);
    assert(bytes@ =~= c_greeting(features));
    proof {
        assert forall|i: int| 0 <= i < bytes@.len() - 1 implies #[trigger] bytes@[i] != 0u8 by {
            assert(greeting(features)[i] as u8 == bytes@[i]);
        }
    }
    bytes
}

} // verus!
