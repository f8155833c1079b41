//! What crosses the boundary to the Objective-C runtime: handles, which are the
//! addresses it hands out, and names, which it reads as null-terminated bytes.

use vstd::prelude::*;
use vstd::utf8::*;
use crate::text::{c_string, is_c_string};

verus! {

/// An object of the runtime, instance or class: the address of a live object.
/// Never null; a null address is `None` of an `Option<Id>`.
#[derive(Clone, Copy, Debug, PartialEq, Eq, Structural)]
pub struct Id {
    addr: usize,
}

impl Id {
    #[verifier::type_invariant]
    spec fn present(self) -> bool {
        self.addr != 0
    }

    /// The address that the handle stands for.
    pub closed spec fn view(self) -> usize {
        self.addr
    }

    /// A handle is its address and nothing more: two handles for one address
    /// are one handle, however often the runtime hands the address out.
    pub proof fn lemma_same_address(self, other: Id)
        ensures
            self@ == other@ <==> self == other,
    {
    }

    /// Reads a pointer-sized value that the runtime returned: null is no object,
    /// any other address is the object at that address.
    pub fn from_addr(addr: usize) -> (id: Option<Id>)
        ensures
            id is None <==> addr == 0,
            id matches Some(object) ==> object@ == addr,
    {
        if addr == 0 {
            None
        } else {
            Some(Id { addr })
        }
    }

    /// The address to hand to the runtime.
    pub fn addr(&self) -> (addr: usize)
        ensures
            addr == self@,
            addr != 0,
    {
        proof {
            use_type_invariant(self);
        }
        self.addr
    }
}

/// A registered selector: the address that the runtime interned its name at.
/// Never null.
#[derive(Clone, Copy, Debug, PartialEq, Eq, Structural)]
pub struct Sel {
    addr: usize,
}

impl Sel {
    #[verifier::type_invariant]
    spec fn present(self) -> bool {
        self.addr != 0
    }

    /// The address that the handle stands for.
    pub closed spec fn view(self) -> usize {
        self.addr
    }

    /// A selector is its address and nothing more: registering one name twice
    /// gives one selector where the runtime gives one address.
    pub proof fn lemma_same_address(self, other: Sel)
        ensures
            self@ == other@ <==> self == other,
    {
    }

    /// Reads a pointer-sized value that selector registration returned: null
    /// is no selector.
    pub fn from_addr(addr: usize) -> (sel: Option<Sel>)
        ensures
            sel is None <==> addr == 0,
            sel matches Some(op) ==> op@ == addr,
    {
        if addr == 0 {
            None
        } else {
            Some(Sel { addr })
        }
    }

    /// The address to hand to the runtime.
    pub fn addr(&self) -> (addr: usize)
        ensures
            addr == self@,
            addr != 0,
    {
        proof {
            use_type_invariant(self);
        }
        self.addr
    }
}

/// Whether `text` can name a class or a selector: it is not empty, and each
/// character is one ASCII byte other than zero.
pub open spec fn is_name(text: Seq<char>) -> bool {
    &&& text.len() > 0
    &&& forall|i: int| 0 <= i < text.len() ==> '\0' < #[trigger] text[i] <= '\u{7f}'
}

/// A name is terminated as the runtime wants it: `c_string` of a name ends at
/// its only zero byte, and holds one byte for each character before it.
pub proof fn lemma_name_is_c_string(text: Seq<char>)
    requires
        is_name(text),
    ensures
        is_c_string(c_string(text)),
        c_string(text).len() == text.len() + 1,
        forall|i: int| 0 <= i < text.len() ==> c_string(text)[i] == text[i] as u8,
{
    assert(is_ascii_chars(text));
    is_ascii_chars_encode_utf8(text);
    let bytes = c_string(text);
    assert forall|i: int| 0 <= i < bytes.len() - 1 implies #[trigger] bytes[i] != 0 by {
        assert(bytes[i] == text[i] as u8);
        assert('\0' < text[i] <= '\u{7f}');
    }
}

/// The name of a class or of a selector.
#[derive(Clone, Copy, Debug, PartialEq, Eq)]
pub struct Name {
    text: &'static str,
}

impl Name {
    #[verifier::type_invariant]
    spec fn named(self) -> bool {
        is_name(self.text@)
    }

    /// The name's characters.
    pub closed spec fn view(self) -> Seq<char> {
        self.text@
    }

    pub(crate) fn new(text: &'static str) -> (name: Name)
        requires
            is_name(text@),
        ensures
            name@ == text@,
    {
        Name { text }
    }

    /// The name as text.
    pub fn as_str(&self) -> (text: &'static str)
        ensures
            text@ == self@,
            is_name(text@),
    {
        proof {
            use_type_invariant(self);
        }
        self.text
    }

    /// The name as the runtime takes it: one byte for each character, then the
    /// terminating zero.
    pub fn c_bytes(&self) -> (bytes: Vec<u8>)
        ensures
            bytes@ == c_string(self@),
            is_c_string(bytes@),
    {
        proof {
            use_type_invariant(self);
            lemma_name_is_c_string(self.text@);
        }
        let mut bytes = self.text.as_bytes_vec();
        bytes.push(0u8);
        bytes
    }
}

} // verus!
