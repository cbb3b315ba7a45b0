//! Identifiers: the name of a container and the number of a process.

use vstd::prelude::*;
use vstd::string::StringExecFns;
use crate::error::{Error, ErrorView};
use crate::text::{chars_of, is_ascii_alphanumeric};

verus! {

/// Whether Unicode counts `c` among the letters and numbers: it has the
/// derived property `Alphabetic` or one of the general categories `Nd`, `Nl`
/// and `No`.
pub uninterp spec fn unicode_alphanumeric(c: char) -> bool;

/// `char::is_alphanumeric` answers from the Unicode tables that the standard
/// library was built with; the answer depends on the character alone.
pub assume_specification[ char::is_alphanumeric ](c: char) -> (r: bool)
    ensures
        r == unicode_alphanumeric(c),
;

/// The most characters that an identifier can have.
pub const MAX_ID_LENGTH: usize = 64;

/// A character that may stand in a container identifier: a dash, an
/// underscore, an ASCII letter or digit, or a letter or number beyond ASCII.
pub open spec fn is_id_char(c: char) -> bool {
    ||| c == '-'
    ||| c == '_'
    ||| (c as u32) < 0x80 && is_ascii_alphanumeric(c)
    ||| (c as u32) >= 0x80 && unicode_alphanumeric(c)
}

/// Every character of `s` may stand in a container identifier.
pub open spec fn all_id_chars(s: Seq<char>) -> bool {
    forall|i: int| 0 <= i < s.len() ==> is_id_char(#[trigger] s[i])
}

/// The texts that are container identifiers: from one to 64 characters,
/// each an identifier character.
pub open spec fn valid_id(s: Seq<char>) -> bool {
    &&& 1 <= s.len() <= MAX_ID_LENGTH
    &&& all_id_chars(s)
}

/// Why a text that is no container identifier is refused.
pub open spec fn id_rejection(s: Seq<char>) -> Seq<char>
    recommends
        !valid_id(s),
{
    if s.len() == 0 {
        "Container ID cannot be empty"@
    } else if s.len() > MAX_ID_LENGTH {
        "Container ID too long (max 64 chars)"@
    } else {
        "Container ID can only contain alphanumeric, dash, and underscore"@
    }
}

/// A text that can be used as one component of a file-system path: not empty,
/// neither `.` nor `..`, and free of `/` and of the NUL character.
pub open spec fn is_path_component(s: Seq<char>) -> bool {
    &&& s.len() > 0
    &&& s != seq!['.']
    &&& s != seq!['.', '.']
    &&& forall|i: int| 0 <= i < s.len() ==> s[i] != '/' && s[i] != '\0'
}

/// Every container identifier is safe as one component of a path.
pub proof fn lemma_valid_id_is_path_component(s: Seq<char>)
    requires
        valid_id(s),
    ensures
        is_path_component(s),
{
    assert(is_id_char(s[0]));
    assert(seq!['.'][0] == '.');
    assert(seq!['.', '.'][0] == '.');
    assert forall|i: int| 0 <= i < s.len() implies s[i] != '/' && s[i] != '\0' by {
        assert(is_id_char(s[i]));
    }
}

/// A text of ASCII characters is a container identifier exactly where it
/// has from one to 64 characters, each a letter, a digit, a dash or an
/// underscore.
pub proof fn lemma_ascii_id(s: Seq<char>)
    ensures
        vstd::utf8::is_ascii_chars(s) ==> (valid_id(s) <==> 1 <= s.len() <= 64 && forall|i: int|
            0 <= i < s.len() ==> is_ascii_alphanumeric(#[trigger] s[i]) || s[i] == '-' || s[i]
                == '_'),
{
    if vstd::utf8::is_ascii_chars(s) {
        if valid_id(s) {
            assert forall|i: int| 0 <= i < s.len() implies is_ascii_alphanumeric(#[trigger] s[i])
                || s[i] == '-' || s[i] == '_' by {
                assert(is_id_char(s[i]));
            }
        }
        if 1 <= s.len() <= 64 && forall|i: int|
            0 <= i < s.len() ==> is_ascii_alphanumeric(#[trigger] s[i]) || s[i] == '-' || s[i]
                == '_' {
            assert forall|i: int| 0 <= i < s.len() implies is_id_char(#[trigger] s[i]) by {
                assert(is_ascii_alphanumeric(s[i]) || s[i] == '-' || s[i] == '_');
            }
        }
    }
}

/// Tests one character of an identifier.
fn id_char(c: char) -> (r: bool)
    ensures
        r == is_id_char(c),
{
    let u: u32 = c as u32;
    if c == '-' || c == '_' {
        true
    } else if u < 0x80 {
        (0x30 <= u && u <= 0x39) || (0x41 <= u && u <= 0x5A) || (0x61 <= u && u <= 0x7A)
    } else {
        c.is_alphanumeric()
    }
}

/// The validated name of a container.
#[derive(Debug, PartialEq, Eq, Hash)]
pub struct ContainerId {
    id: String,
}

impl View for ContainerId {
    type V = Seq<char>;

    closed spec fn view(&self) -> Seq<char> {
        self.id@
    }
}

impl ContainerId {
    /// The most characters that an identifier can have.
    pub const MAX_LENGTH: usize = 64;

    #[verifier::type_invariant]
    spec fn well_formed(self) -> bool {
        valid_id(self.id@)
    }

    /// Tests whether `id` can name a container, and says why where it cannot.
    pub fn validate(id: &str) -> (r: Result<(), Error>)
        ensures
            valid_id(id@) ==> r is Ok,
            !valid_id(id@) ==> r is Err && r->Err_0@ == (ErrorView::InvalidConfig {
                message: id_rejection(id@),
            }),
    {
        if id.is_empty() {
            return Err(Error::invalid_config("Container ID cannot be empty"));
        }
        let chars = chars_of(id);
        if chars.len() > MAX_ID_LENGTH {
            return Err(Error::invalid_config("Container ID too long (max 64 chars)"));
        }
        let mut i: usize = 0;
        while i < chars.len()
            invariant
                i <= chars.len(),
                chars@ == id@,
                1 <= id@.len() <= MAX_ID_LENGTH,
                forall|j: int| 0 <= j < i ==> is_id_char(#[trigger] id@[j]),
            decreases chars.len() - i,
        {
            if !id_char(chars[i]) {
                return Err(
                    Error::invalid_config(
                        "Container ID can only contain alphanumeric, dash, and underscore",
                    ),
                );
            }
            i = i + 1;
        }
        Ok(())
    }

    /// Makes a container identifier of `id`, or refuses it.
    pub fn new(id: &str) -> (r: Result<ContainerId, Error>)
        ensures
            valid_id(id@) ==> r is Ok && r->Ok_0@ == id@,
            !valid_id(id@) ==> r is Err && r->Err_0@ == (ErrorView::InvalidConfig {
                message: id_rejection(id@),
            }),
    {
        match ContainerId::validate(id) {
            Ok(()) => Ok(ContainerId { id: String::from_str(id) }),
            Err(e) => Err(e),
        }
    }

    /// The identifier as text.
    pub fn as_str(&self) -> (s: &str)
        ensures
            s@ == self@,
            valid_id(s@),
    {
        proof {
            use_type_invariant(self);
        }
        self.id.as_str()
    }

    /// The identifier as an owned string.
    pub fn to_string(&self) -> (s: String)
        ensures
            s@ == self@,
    {
        self.id.clone()
    }

}

impl Clone for ContainerId {
    /// A second identifier with the same text.
    fn clone(&self) -> (c: ContainerId)
        ensures
            c@ == self@,
    {
        proof {
            use_type_invariant(self);
        }
        ContainerId { id: self.id.clone() }
    }
}

impl core::str::FromStr for ContainerId {
    type Err = Error;

    /// Makes a container identifier of `s`, or refuses it.
    fn from_str(s: &str) -> (r: Result<ContainerId, Error>)
        ensures
            valid_id(s@) ==> r is Ok && r->Ok_0@ == s@,
            !valid_id(s@) ==> r is Err && r->Err_0@ == (ErrorView::InvalidConfig {
                message: id_rejection(s@),
            }),
    {
        ContainerId::new(s)
    }
}

/// The number by which the kernel knows a process.
#[derive(Debug, Clone, Copy, PartialEq, Eq, Structural, Hash)]
pub struct ProcessId(pub i32);

impl ProcessId {
    /// The process with the given number.
    pub fn from_raw(pid: i32) -> (p: ProcessId)
        ensures
            p.0 == pid,
    {
        ProcessId(pid)
    }

    /// The number of the process.
    pub fn as_raw(self) -> (pid: i32)
        ensures
            pid == self.0,
    {
        self.0
    }

    /// The decimal text of the number.
    pub fn to_string(&self) -> (s: String)
        ensures
            s@ == crate::text::signed_decimal(self.0 as int),
    {
        let mut s = String::new();
        crate::text::push_signed_decimal(&mut s, self.0 as i64);
        assert(Seq::<char>::empty() + crate::text::signed_decimal(self.0 as int)
            == crate::text::signed_decimal(self.0 as int));
        s
    }
}

} // verus!
