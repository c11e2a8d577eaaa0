use vstd::prelude::*;
use crate::error::Error;
use crate::utils::{counted_string_of, create_unicode_string, UnicodeString};

verus! {

/// A symbolic link in the object namespace, known by its name.
pub struct SymbolicLink<'a> {
    name: &'a str,
}

impl<'a> View for SymbolicLink<'a> {
    type V = Seq<char>;

    closed spec fn view(&self) -> Seq<char> {
        self.name@
    }
}

impl<'a> SymbolicLink<'a> {
    /// The link named `name` to `target`, with the counted strings of the
    /// link's name and of its target that the creation call takes. Creating a
    /// link always succeeds: the creation call's status is not consulted.
    pub fn new(name: &'a str, target: &str) -> (r: Result<(SymbolicLink<'a>, UnicodeString, UnicodeString), Error>)
        ensures
            r matches Ok((link, link_name, link_target)) && link@ == name@ && counted_string_of(
                link_name,
                name@,
            ) && counted_string_of(link_target, target@),
    {
        let name_unicode = create_unicode_string(name);
        let target_unicode = create_unicode_string(target);
        Ok((SymbolicLink { name }, name_unicode, target_unicode))
    }

    /// The counted string of the link's name, which the deletion call takes.
    pub fn close(&self) -> (name: UnicodeString)
        ensures
            counted_string_of(name, self@),
    {
        create_unicode_string(self.name)
    }
}

/// The name that closing a link deletes is the name that creating it created:
/// both are the counted string of the link's name.
pub proof fn lemma_close_names_created_link<'a>(
    link: SymbolicLink<'a>,
    name: Seq<char>,
    created: UnicodeString,
    closed: UnicodeString,
)
    requires
        link@ == name,
        counted_string_of(created, name),
        counted_string_of(closed, link@),
    ensures
        closed.buffer@ == created.buffer@,
        closed.length == created.length,
        closed.maximum_length == created.maximum_length,
{
}

} // verus!
