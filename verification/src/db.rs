use vstd::prelude::*;
use vstd::string::StrSliceExecFns;

verus! {

/// The tables that the module keeps in its storage.
#[derive(Clone, Copy, Debug, PartialEq, Eq, Structural)]
pub enum DbKeyPrefix {
    /// The balance record.
    ClientFunds,
    /// The display name, which nothing but a dump reads.
    ClientName,
}

/// The version of the layout that stored data has.
#[derive(Clone, Copy, Debug, PartialEq, Eq, Structural)]
pub struct DatabaseVersion(pub u64);

/// The code of `c`, with the upper-case ASCII letters mapped to their
/// lower-case ones.
pub open spec fn lower_code(c: char) -> int {
    if 'A' <= c && c <= 'Z' {
        c as int + 32
    } else {
        c as int
    }
}

/// Whether `a` and `b` are the same text but for the case of ASCII letters.
pub open spec fn same_ignoring_case(a: Seq<char>, b: Seq<char>) -> bool {
    a.len() == b.len() && forall|i: int| 0 <= i < a.len() ==> lower_code(a[i]) == lower_code(b[i])
}

/// The code of `c`, with the upper-case ASCII letters mapped to their
/// lower-case ones.
fn char_lower_code(c: char) -> (code: u32)
    ensures
        code == lower_code(c),
{
    if 'A' <= c && c <= 'Z' {
        c as u32 + 32
    } else {
        c as u32
    }
}

/// Whether `a` and `b` are the same text but for the case of ASCII letters.
pub fn eq_ignoring_case(a: &str, b: &str) -> (same: bool)
    ensures
        same == same_ignoring_case(a@, b@),
{
    let n = a.unicode_len();
    if n != b.unicode_len() {
        return false;
    }
    let mut i: usize = 0;
    while i < n
        invariant
            n == a@.len(),
            n == b@.len(),
            i <= n,
            forall|j: int| 0 <= j < i ==> lower_code(a@[j]) == lower_code(b@[j]),
        decreases n - i,
    {
        if char_lower_code(a.get_char(i)) != char_lower_code(b.get_char(i)) {
            return false;
        }
        i = i + 1;
    }
    true
}

impl DbKeyPrefix {
    /// The name of the table.
    pub open spec fn spec_name(self) -> Seq<char> {
        match self {
            DbKeyPrefix::ClientFunds => "ClientFunds"@,
            DbKeyPrefix::ClientName => "ClientName"@,
        }
    }

    /// The name of the table.
    pub fn name(&self) -> (name: &'static str)
        ensures
            name@ == self.spec_name(),
    {
        match self {
            DbKeyPrefix::ClientFunds => "ClientFunds",
            DbKeyPrefix::ClientName => "ClientName",
        }
    }

    /// Whether a dump that is asked for the tables `prefix_names` shows
    /// this one: it shows every table where no name is given, and
    /// otherwise those that are named, in whatever case.
    pub open spec fn spec_selected(self, prefix_names: Seq<Seq<char>>) -> bool {
        prefix_names.len() == 0 || exists|i: int|
            0 <= i < prefix_names.len() && same_ignoring_case(
                #[trigger] prefix_names[i],
                self.spec_name(),
            )
    }

    /// Whether a dump that is asked for the tables `prefix_names` shows
    /// this one.
    pub fn selected(&self, prefix_names: &Vec<String>) -> (shown: bool)
        ensures
            shown == self.spec_selected(prefix_names@.map_values(|s: String| s@)),
    {
        let ghost names = prefix_names@.map_values(|s: String| s@);
        if prefix_names.len() == 0 {
            return true;
        }
        let mut i: usize = 0;
        while i < prefix_names.len()
            invariant
                i <= prefix_names@.len(),
                names == prefix_names@.map_values(|s: String| s@),
                forall|j: int|
                    0 <= j < i ==> !same_ignoring_case(#[trigger] names[j], self.spec_name()),
            decreases prefix_names@.len() - i,
        {
            if eq_ignoring_case(prefix_names[i].as_str(), self.name()) {
                assert(same_ignoring_case(names[i as int], self.spec_name()));
                return true;
            }
            i = i + 1;
        }
        false
    }
}

} // verus!
