use vstd::prelude::*;
use vstd::string::StrSliceExecFns;
use vstd::string::StringExecFns;

verus! {

/// The longest accepted name, in characters.
pub const MAX_NAME_LENGTH: usize = 256;

/// Characters that are never accepted in a name.
pub open spec fn is_forbidden_char(c: char) -> bool {
    c == '/' || c == '(' || c == ')' || c == '"' || c == '<' || c == '>' || c == '\\' || c
        == '{' || c == '}'
}

/// Unicode's White_Space property, as `char::is_whitespace` documents it.
pub open spec fn is_whitespace_char(c: char) -> bool {
    let u = c as u32;
    (0x09 <= u <= 0x0d) || u == 0x20 || u == 0x85 || u == 0xa0 || u == 0x1680 || (0x2000 <= u
        <= 0x200a) || u == 0x2028 || u == 0x2029 || u == 0x202f || u == 0x205f || u == 0x3000
}

/// Nothing is left of `s` once leading and trailing whitespace is trimmed.
pub open spec fn is_blank(s: Seq<char>) -> bool {
    forall|i: int| 0 <= i < s.len() ==> is_whitespace_char(#[trigger] s[i])
}

pub open spec fn has_forbidden_char(s: Seq<char>) -> bool {
    exists|i: int| 0 <= i < s.len() && is_forbidden_char(#[trigger] s[i])
}

/// A display name: not blank, at most `MAX_NAME_LENGTH` characters, and free
/// of forbidden characters.
pub open spec fn is_valid_name(s: Seq<char>) -> bool {
    &&& !is_blank(s)
    &&& s.len() <= MAX_NAME_LENGTH
    &&& !has_forbidden_char(s)
}

pub open spec fn name_error_text(s: Seq<char>) -> Seq<char> {
    s + " is not a valid subscriber name."@
}

fn is_whitespace(c: char) -> (r: bool)
    ensures
        r == is_whitespace_char(c),
{
    let u = c as u32;
    (0x09 <= u && u <= 0x0d) || u == 0x20 || u == 0x85 || u == 0xa0 || u == 0x1680 || (0x2000
        <= u && u <= 0x200a) || u == 0x2028 || u == 0x2029 || u == 0x202f || u == 0x205f || u
        == 0x3000
}

fn is_forbidden(c: char) -> (r: bool)
    ensures
        r == is_forbidden_char(c),
{
    c == '/' || c == '(' || c == ')' || c == '"' || c == '<' || c == '>' || c == '\\' || c == '{'
        || c == '}'
}

/// The error for a string that is not a valid name: it names the value.
pub fn name_error(s: &str) -> (r: String)
    ensures
        r@ == name_error_text(s@),
{
    String::from_str(s).concat(" is not a valid subscriber name.")
}

/// A subscriber's display name, valid by construction.
#[derive(Debug)]
pub struct SubscriberName(String);

impl View for SubscriberName {
    type V = Seq<char>;

    closed spec fn view(&self) -> Seq<char> {
        self.0@
    }
}

impl SubscriberName {
    #[verifier::type_invariant]
    spec fn inv(&self) -> bool {
        is_valid_name(self.0@)
    }

    /// Accepts `s` exactly when it is a valid name; the error names the value.
    pub fn parse(s: String) -> (r: Result<SubscriberName, String>)
        ensures
            r is Ok <==> is_valid_name(s@),
            r matches Ok(n) ==> n@ == s@,
            r matches Err(e) ==> e@ == name_error_text(s@),
    {
        let t = s.as_str();
        let n = t.unicode_len();
        let mut ok = n <= MAX_NAME_LENGTH;
        let mut blank = true;
        let mut i: usize = 0;
        while ok && i < n
            invariant
                n == t@.len(),
                t@ == s@,
                i <= n,
                ok ==> n <= MAX_NAME_LENGTH,
                ok ==> forall|j: int| 0 <= j < i ==> !is_forbidden_char(#[trigger] t@[j]),
                ok ==> blank == (forall|j: int| 0 <= j < i ==> is_whitespace_char(#[trigger] t@[j])),
                !ok ==> !is_valid_name(s@),
            decreases n - i,
        {
            let c = t.get_char(i);
            if is_forbidden(c) {
                ok = false;
            } else if !is_whitespace(c) {
                blank = false;
            }
            i = i + 1;
        }
        if ok && !blank {
            Ok(SubscriberName(s))
        } else {
            proof {
                if ok {
                    assert(i == n);
                }
            }
            Err(name_error(t))
        }
    }

    /// The name's text.
    pub fn as_ref(&self) -> (r: &str)
        ensures
            r@ == self@,
            is_valid_name(r@),
    {
        proof {
            use_type_invariant(self);
        }
        self.0.as_str()
    }
}

} // verus!
