//! The package manifest as the rest of the crate sees it.

use vstd::prelude::*;
use vstd::string::group_string_axioms;
use crate::text::joined3;

verus! {

/// What a manifest declares. Nothing is checked when one is made: whether
/// the name and the version are acceptable is decided by validation.
#[derive(Debug)]
pub struct BooPackageDefinition {
    pub name: String,
    pub version: String,
    pub includes: Vec<String>,
}

/// A definition's fields as plain text.
pub struct DefinitionView {
    pub name: Seq<char>,
    pub version: Seq<char>,
    pub includes: Seq<Seq<char>>,
}

/// The texts of `items`, one for one.
pub open spec fn texts(items: Seq<String>) -> Seq<Seq<char>> {
    Seq::new(items.len(), |i: int| items[i]@)
}

impl View for BooPackageDefinition {
    type V = DefinitionView;

    open spec fn view(&self) -> DefinitionView {
        DefinitionView { name: self.name@, version: self.version@, includes: texts(self.includes@) }
    }
}

/// `name` as it stands in a file name: every `/` becomes a `-`, and every
/// `@` is left out.
pub open spec fn file_stem(name: Seq<char>) -> Seq<char>
    decreases name.len(),
{
    if name.len() == 0 {
        Seq::empty()
    } else if name.last() == '/' {
        file_stem(name.drop_last()).push('-')
    } else if name.last() == '@' {
        file_stem(name.drop_last())
    } else {
        file_stem(name.drop_last()).push(name.last())
    }
}

impl BooPackageDefinition {
    /// The name of the archive file without its extension: the name's file
    /// stem, a dash and the version.
    pub fn package_file_name(&self) -> (file_name: String)
        ensures
            file_name@ == file_stem(self.name@) + "-"@ + self.version@,
    {
        broadcast use group_string_axioms;

        let mut file_name = String::new();
        let name = self.name.as_str();
        for c in it: name.chars()
            invariant
                it.seq() == name@,
                file_name@ == file_stem(name@.take(it.index())),
        {
            proof {
                let next = name@.take(it.index() + 1);
                assert(next.drop_last() =~= name@.take(it.index()));
            }
            if c == '/' {
                file_name.push('-');
            } else if c != '@' {
                file_name.push(c);
            }
        }
        assert(name@.take(name@.len() as int) == name@);
        file_name.append("-");
        file_name.append(self.version.as_str());
        file_name
    }

    /// The package and its version as one reference: `name@version`.
    pub fn version_reference(&self) -> (reference: String)
        ensures
            reference@ == self.name@ + "@"@ + self.version@,
    {
        joined3(self.name.as_str(), "@", self.version.as_str())
    }
}

} // verus!
