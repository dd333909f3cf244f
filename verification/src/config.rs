use vstd::prelude::*;

use crate::text::lower_of;
use crate::text::to_lowercase;
use crate::Column;

verus! {

/// The user's configuration: a default application for opening files, and a
/// list of applications each with the file extensions it handles. Reading
/// and parsing the configuration file happens outside this crate; the parsed
/// plain values are handed in here.
pub struct Config {
    pub default: Option<String>,
    pub apps: Option<Vec<(String, Vec<String>)>>,
}

impl Config {
    /// The application/extension pairs, in configuration order.
    pub open spec fn app_pairs(&self) -> Seq<(String, Vec<String>)> {
        match self.apps {
            Some(v) => v@,
            None => Seq::empty(),
        }
    }

    /// Pair `i` lists `low` among its extensions.
    pub open spec fn pair_hits(&self, i: int, low: Seq<char>) -> bool {
        exists|j: int|
            0 <= j < self.app_pairs()[i].1@.len() && (#[trigger] self.app_pairs()[i].1@[j])@ == low
    }

    /// The application the lookup yields for an already-lowercased
    /// extension: the first configured pair listing it wins; with no such
    /// pair the default application, if any; otherwise nothing.
    pub open spec fn app_choice(&self, low: Seq<char>, r: Option<Seq<char>>) -> bool {
        match r {
            Some(a) => (exists|i: int|
                0 <= i < self.app_pairs().len() && #[trigger] self.pair_hits(i, low) && a
                    == self.app_pairs()[i].0@ && (forall|k: int|
                    0 <= k < i ==> !self.pair_hits(k, low))) || ((forall|k: int|
                0 <= k < self.app_pairs().len() ==> !self.pair_hits(k, low)) && match self
                .default {
                Some(d) => a == d@,
                None => false,
            }),
            None => (forall|k: int| 0 <= k < self.app_pairs().len() ==> !self.pair_hits(k, low))
                && self.default is None,
        }
    }

    /// Looks the file extension up, case-insensitively on the extension: the
    /// first configured pair listing the lowercased extension wins; with no
    /// such pair the default application is returned, if any.
    pub fn get_app(&self, file_ext: &str) -> (r: Option<String>)
        ensures
            self.app_choice(
                lower_of(file_ext@),
                match r {
                    Some(a) => Some(a@),
                    None => None,
                },
            ),
    {
        let low = to_lowercase(file_ext);
        if let Some(apps) = &self.apps {
            let mut i: usize = 0;
            while i < apps.len()
                invariant
                    i <= apps@.len(),
                    self.apps == Some(*apps),
                    low@ == lower_of(file_ext@),
                    forall|k: int| 0 <= k < i ==> !self.pair_hits(k, lower_of(file_ext@)),
                decreases apps@.len() - i,
            {
                let pair = &apps[i];
                if contains_string(&pair.1, &low) {
                    proof {
                        assert(self.app_pairs()[i as int] == apps@[i as int]);
                        assert(self.pair_hits(i as int, lower_of(file_ext@)));
                    }
                    return Some(pair.0.clone());
                }
                i += 1;
            }
        }
        match &self.default {
            Some(d) => Some(d.clone()),
            None => None,
        }
    }

    /// The columns shown for each entry, in display order: the defaults of
    /// `COLUMNS`.
    pub fn get_columns(&self) -> (cols: Vec<Column>)
        ensures
            cols@ == seq![Column::Name, Column::Type, Column::Size, Column::Created],
            cols@ == crate::consts::COLUMNS@,
    {
        let mut cols: Vec<Column> = Vec::new();
        cols.push(Column::Name);
        cols.push(Column::Type);
        cols.push(Column::Size);
        cols.push(Column::Created);
        proof {
            assert(cols@ =~= seq![Column::Name, Column::Type, Column::Size, Column::Created]);
            assert(cols@ =~= crate::consts::COLUMNS@);
        }
        cols
    }
}

/// Whether the list holds a string with exactly these characters.
fn contains_string(v: &Vec<String>, x: &String) -> (b: bool)
    ensures
        b == exists|j: int| 0 <= j < v@.len() && (#[trigger] v@[j])@ == x@,
{
    let mut j: usize = 0;
    while j < v.len()
        invariant
            j <= v@.len(),
            forall|k: int| 0 <= k < j ==> (#[trigger] v@[k])@ != x@,
        decreases v@.len() - j,
    {
        if v[j] == *x {
            return true;
        }
        j += 1;
    }
    false
}

} // verus!
