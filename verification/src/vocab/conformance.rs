//! Interoperability conformance classes.
//!
//! Class A = GBP + GSP (mandatory base); Class B = Class A + GTP;
//! Class C = Class B + GAP (full stack). Implementations declare their class
//! during capability negotiation using the well-known token strings below.

use vstd::prelude::*;

verus! {

/// Interoperability conformance class.
#[derive(Copy, Clone, Debug, PartialEq, Eq, Structural, PartialOrd, Ord, Hash)]
pub enum ConformanceClass {
    /// Class A: GBP + GSP (mandatory minimum).
    A,
    /// Class B: Class A + GTP (text messaging).
    B,
    /// Class C: Class B + GAP (audio).
    C,
}

/// Rank of a class in the order A < B < C.
pub open spec fn class_rank(c: ConformanceClass) -> int {
    match c {
        ConformanceClass::A => 0,
        ConformanceClass::B => 1,
        ConformanceClass::C => 2,
    }
}

/// The well-known token of Class A.
pub open spec fn token_a() -> Seq<char> {
    "gbp/class-a"@
}

/// The well-known token of Class B.
pub open spec fn token_b() -> Seq<char> {
    "gbp/class-b"@
}

/// The well-known token of Class C.
pub open spec fn token_c() -> Seq<char> {
    "gbp/class-c"@
}

/// The tokens a class advertises: its own and those of every lower class.
pub open spec fn class_tokens(c: ConformanceClass) -> Seq<Seq<char>> {
    match c {
        ConformanceClass::A => seq![token_a()],
        ConformanceClass::B => seq![token_a(), token_b()],
        ConformanceClass::C => seq![token_a(), token_b(), token_c()],
    }
}

/// `t` occurs among `tokens`.
pub open spec fn has_token(tokens: Seq<Seq<char>>, t: Seq<char>) -> bool {
    exists|i: int| 0 <= i < tokens.len() && tokens[i] == t
}

/// The highest class whose tokens (and those of every lower class) all
/// occur among `tokens`; `None` when not even Class A is present.
pub open spec fn class_from_tokens(tokens: Seq<Seq<char>>) -> Option<ConformanceClass> {
    if has_token(tokens, token_a()) && has_token(tokens, token_b()) && has_token(
        tokens,
        token_c(),
    ) {
        Some(ConformanceClass::C)
    } else if has_token(tokens, token_a()) && has_token(tokens, token_b()) {
        Some(ConformanceClass::B)
    } else if has_token(tokens, token_a()) {
        Some(ConformanceClass::A)
    } else {
        None
    }
}

/// The views of a slice of strings.
pub open spec fn str_views(tokens: Seq<&str>) -> Seq<Seq<char>> {
    tokens.map_values(|t: &str| t@)
}

/// Compares two strings by content.
pub fn str_eq(a: &str, b: &str) -> (r: bool)
    ensures
        r == (a@ == b@),
{
    a.to_owned() == b.to_owned()
}

/// A class's own tokens identify that class again.
pub proof fn lemma_tokens_identify_class(c: ConformanceClass)
    ensures
        class_from_tokens(class_tokens(c)) == Some(c),
{
    reveal_strlit("gbp/class-a");
    reveal_strlit("gbp/class-b");
    reveal_strlit("gbp/class-c");
    let ts = class_tokens(c);
    assert(ts[0] == token_a());
    if c != ConformanceClass::A {
        assert(ts[1] == token_b());
    }
    if c == ConformanceClass::C {
        assert(ts[2] == token_c());
    }
    if c == ConformanceClass::A {
        assert(!has_token(ts, token_b())) by {
            assert(token_a()[10] != token_b()[10]);
        }
    }
    if c == ConformanceClass::B {
        assert(!has_token(ts, token_c())) by {
            assert(token_a()[10] != token_c()[10]);
            assert(token_b()[10] != token_c()[10]);
        }
    }
}

impl ConformanceClass {
    /// Well-known capability token for Class A.
    pub const TOKEN_A: &'static str = "gbp/class-a";
    /// Well-known capability token for Class B.
    pub const TOKEN_B: &'static str = "gbp/class-b";
    /// Well-known capability token for Class C.
    pub const TOKEN_C: &'static str = "gbp/class-c";

    /// Returns all capability tokens that must be advertised for this class
    /// (including tokens for lower classes: each class implies the ones
    /// below).
    pub fn tokens(self) -> (r: Vec<&'static str>)
        ensures
            str_views(r@) == class_tokens(self),
    {
        let mut v: Vec<&'static str> = Vec::new();
        v.push("gbp/class-a");
        match self {
            ConformanceClass::A => {},
            ConformanceClass::B => {
                v.push("gbp/class-b");
            },
            ConformanceClass::C => {
                v.push("gbp/class-b");
                v.push("gbp/class-c");
            },
        }
        assert(str_views(v@) =~= class_tokens(self));
        v
    }

    /// Infers the highest conformance class from a set of capability tokens.
    /// Returns `None` if not even Class A is present.
    pub fn from_tokens(tokens: &[&str]) -> (r: Option<ConformanceClass>)
        ensures
            r == class_from_tokens(str_views(tokens@)),
    {
        let mut has_a = false;
        let mut has_b = false;
        let mut has_c = false;
        let ghost views = str_views(tokens@);
        let mut i: usize = 0;
        while i < tokens.len()
            invariant
                0 <= i <= tokens.len(),
                views == str_views(tokens@),
                has_a == has_token(views.take(i as int), token_a()),
                has_b == has_token(views.take(i as int), token_b()),
                has_c == has_token(views.take(i as int), token_c()),
            decreases tokens.len() - i,
        {
            let t = tokens[i];
            if str_eq(t, "gbp/class-a") {
                has_a = true;
            } else if str_eq(t, "gbp/class-b") {
                has_b = true;
            } else if str_eq(t, "gbp/class-c") {
                has_c = true;
            }
            proof {
                let pre = views.take(i as int);
                let post = views.take(i + 1);
                assert(post[i as int] == t@);
                assert forall|w: Seq<char>| has_token(post, w) == (has_token(pre, w) || t@ == w) by {
                    if has_token(pre, w) {
                        let j = choose|j: int| 0 <= j < pre.len() && pre[j] == w;
                        assert(post[j] == w);
                    }
                    if has_token(post, w) {
                        let j = choose|j: int| 0 <= j < post.len() && post[j] == w;
                        if j < i {
                            assert(pre[j] == w);
                        }
                    }
                    if t@ == w {
                        assert(post[i as int] == w);
                    }
                }
                reveal_strlit("gbp/class-a");
                reveal_strlit("gbp/class-b");
                reveal_strlit("gbp/class-c");
                assert(token_a()[10] != token_b()[10]);
                assert(token_a()[10] != token_c()[10]);
                assert(token_b()[10] != token_c()[10]);
            }
            i = i + 1;
        }
        proof {
            assert(views.take(tokens.len() as int) =~= views);
        }
        if has_a && has_b && has_c {
            Some(ConformanceClass::C)
        } else if has_a && has_b {
            Some(ConformanceClass::B)
        } else if has_a {
            Some(ConformanceClass::A)
        } else {
            None
        }
    }

    /// Human-readable description of the class.
    pub fn name(self) -> (r: &'static str)
        ensures
            r@ == class_name(self),
    {
        match self {
            ConformanceClass::A => "Class A (GBP+GSP)",
            ConformanceClass::B => "Class B (GBP+GSP+GTP)",
            ConformanceClass::C => "Class C (GBP+GSP+GTP+GAP)",
        }
    }
}

/// Display text of each class.
pub open spec fn class_name(c: ConformanceClass) -> Seq<char> {
    match c {
        ConformanceClass::A => "Class A (GBP+GSP)"@,
        ConformanceClass::B => "Class B (GBP+GSP+GTP)"@,
        ConformanceClass::C => "Class C (GBP+GSP+GTP+GAP)"@,
    }
}

} // verus!
