//! Publishing: the facts as key/value pairs that later build steps can read.

use vstd::prelude::*;
use vstd::string::*;
use crate::gitversion::{well_formed, Fact, FactRef, GitVersion};
use crate::schema::{field, field_at, Kind, FIELD_COUNT};
use crate::text::{decimal, decimal_string, to_upper, upper};

verus! {

/// One published fact.
#[derive(Clone, Debug, PartialEq, Eq)]
pub struct Variable {
    pub key: String,
    pub value: String,
}

impl View for Variable {
    type V = (Seq<char>, Seq<char>);

    open spec fn view(&self) -> (Seq<char>, Seq<char>) {
        (self.key@, self.value@)
    }
}

/// The variables of a sequence of them.
pub open spec fn variable_views(variables: Seq<Variable>) -> Seq<(Seq<char>, Seq<char>)> {
    variables.map_values(|variable: Variable| variable@)
}

/// The key under which the fact of this name is published: `GITVERSION_` and
/// the name in upper case.
pub open spec fn key_of(name: Seq<char>) -> Seq<char> {
    "GITVERSION_"@ + name.map_values(|c: char| upper(c))
}

/// The text of a fact's value: a number in decimal, a string as it is.
pub open spec fn value_text(fact: Fact) -> Seq<char> {
    match fact {
        Fact::Number(n) => decimal(n as nat),
        Fact::Optional(Some(n)) => decimal(n as nat),
        Fact::Optional(None) => Seq::empty(),
        Fact::Text(text) => text,
    }
}

/// Whether a fact is published: every fact but an absent optional number.
pub open spec fn is_published(fact: Fact) -> bool {
    fact != Fact::Optional(None)
}

/// The variable of fact `i`.
pub open spec fn variable_at(facts: Seq<Fact>, i: int) -> (Seq<char>, Seq<char>) {
    (key_of(field_at(i).name@), value_text(facts[i]))
}

/// The variables of the first `n` facts, in the order of the table.
pub open spec fn variables_upto(facts: Seq<Fact>, n: int) -> Seq<(Seq<char>, Seq<char>)>
    decreases n,
{
    if n <= 0 {
        Seq::empty()
    } else if is_published(facts[n - 1]) {
        variables_upto(facts, n - 1).push(variable_at(facts, n - 1))
    } else {
        variables_upto(facts, n - 1)
    }
}

/// The variables of a descriptor.
pub open spec fn variables(facts: Seq<Fact>) -> Seq<(Seq<char>, Seq<char>)> {
    variables_upto(facts, FIELD_COUNT as int)
}

/// The line that hands a variable to the build: `cargo:rustc-env=`, the key,
/// `=`, the value.
pub open spec fn directive_of(variable: (Seq<char>, Seq<char>)) -> Seq<char> {
    "cargo:rustc-env="@ + variable.0 + "="@ + variable.1
}

/// The key under which the fact of this name is published.
pub fn env_key(name: &str) -> (r: String)
    ensures
        r@ == key_of(name@),
{
    let mut key = String::from_str("GITVERSION_");
    let len = name.unicode_len();
    let mut i: usize = 0;
    while i < len
        invariant
            i <= len,
            len == name@.len(),
            key@ == "GITVERSION_"@ + name@.take(i as int).map_values(|c: char| upper(c)),
        decreases len - i,
    {
        key.push(to_upper(name.get_char(i)));
        assert(name@.take(i + 1).map_values(|c: char| upper(c)) =~= name@.take(i as int).map_values(
            |c: char| upper(c),
        ).push(upper(name@[i as int])));
        i = i + 1;
    }
    assert(name@.take(len as int) =~= name@);
    key
}

/// The variables of a descriptor, in the order of the table. An optional
/// number that is absent has none.
pub fn publish(version: &GitVersion) -> (r: Vec<Variable>)
    ensures
        variable_views(r@) == variables(version@),
{
    let mut out: Vec<Variable> = Vec::new();
    let mut i: usize = 0;
    while i < FIELD_COUNT
        invariant
            i <= FIELD_COUNT,
            variable_views(out@) == variables_upto(version@, i as int),
        decreases FIELD_COUNT - i,
    {
        let ghost before = variable_views(out@);
        match (field(i), version.get(i)) {
            (Some(row), Some(fact)) => {
                let value = match fact {
                    FactRef::Number(n) => Some(decimal_string(n)),
                    FactRef::Optional(Some(n)) => Some(decimal_string(n)),
                    FactRef::Optional(None) => None,
                    FactRef::Text(text) => Some(String::from_str(text)),
                };
                match value {
                    Some(value) => {
                        out.push(Variable { key: env_key(row.name), value });
                        assert(variable_views(out@) =~= before.push(
                            variable_at(version@, i as int),
                        ));
                    },
                    None => {},
                }
            },
            _ => {},
        }
        i = i + 1;
    }
    out
}

/// The line that hands a variable to the build.
pub fn directive(variable: &Variable) -> (r: String)
    ensures
        r@ == directive_of(variable@),
{
    let mut line = String::from_str("cargo:rustc-env=");
    line.append(variable.key.as_str());
    line.append("=");
    line.append(variable.value.as_str());
    line
}

/// The length of a key, and the first two characters of the name in it.
spec fn mark(key: Seq<char>) -> (nat, char, char) {
    (key.len(), key[11], key[12])
}

/// The mark of the key of fact `i`.
spec fn mark_at(i: int) -> (nat, char, char) {
    if i == 0 {
        (16, 'M', 'A')
    } else if i == 1 {
        (16, 'M', 'I')
    } else if i == 2 {
        (16, 'P', 'A')
    } else if i == 3 {
        (26, 'P', 'R')
    } else if i == 4 {
        (36, 'P', 'R')
    } else if i == 5 {
        (28, 'P', 'R')
    } else if i == 6 {
        (38, 'P', 'R')
    } else if i == 7 {
        (29, 'P', 'R')
    } else if i == 8 {
        (38, 'W', 'E')
    } else if i == 9 {
        (26, 'B', 'U')
    } else if i == 10 {
        (33, 'B', 'U')
    } else if i == 11 {
        (31, 'F', 'U')
    } else if i == 12 {
        (28, 'M', 'A')
    } else if i == 13 {
        (17, 'S', 'E')
    } else if i == 14 {
        (24, 'L', 'E')
    } else if i == 15 {
        (31, 'L', 'E')
    } else if i == 16 {
        (26, 'A', 'S')
    } else if i == 17 {
        (36, 'A', 'S')
    } else if i == 18 {
        (32, 'I', 'N')
    } else if i == 19 {
        (22, 'F', 'U')
    } else if i == 20 {
        (22, 'B', 'R')
    } else if i == 21 {
        (30, 'E', 'S')
    } else if i == 22 {
        (14, 'S', 'H')
    } else if i == 23 {
        (20, 'S', 'H')
    } else if i == 24 {
        (27, 'N', 'U')
    } else if i == 25 {
        (24, 'N', 'U')
    } else if i == 26 {
        (34, 'N', 'U')
    } else if i == 27 {
        (31, 'N', 'U')
    } else if i == 28 {
        (29, 'V', 'E')
    } else if i == 29 {
        (39, 'C', 'O')
    } else if i == 30 {
        (46, 'C', 'O')
    } else if i == 31 {
        (30, 'U', 'N')
    } else {
        (22, 'C', 'O')
    }
}

proof fn lemma_mark(i: int)
    requires
        0 <= i < FIELD_COUNT,
    ensures
        mark(key_of(field_at(i).name@)) == mark_at(i),
{
    reveal_strlit("GITVERSION_");
    if i == 0 {
        reveal_strlit("major");
    } else if i == 1 {
        reveal_strlit("minor");
    } else if i == 2 {
        reveal_strlit("patch");
    } else if i == 3 {
        reveal_strlit("pre_release_tag");
    } else if i == 4 {
        reveal_strlit("pre_release_tag_with_dash");
    } else if i == 5 {
        reveal_strlit("pre_release_label");
    } else if i == 6 {
        reveal_strlit("pre_release_label_with_dash");
    } else if i == 7 {
        reveal_strlit("pre_release_number");
    } else if i == 8 {
        reveal_strlit("weighted_pre_release_number");
    } else if i == 9 {
        reveal_strlit("build_meta_data");
    } else if i == 10 {
        reveal_strlit("build_meta_data_padded");
    } else if i == 11 {
        reveal_strlit("full_build_meta_data");
    } else if i == 12 {
        reveal_strlit("major_minor_patch");
    } else if i == 13 {
        reveal_strlit("semver");
    } else if i == 14 {
        reveal_strlit("legacy_semver");
    } else if i == 15 {
        reveal_strlit("legacy_semver_padded");
    } else if i == 16 {
        reveal_strlit("assembly_semver");
    } else if i == 17 {
        reveal_strlit("assembly_sem_file_version");
    } else if i == 18 {
        reveal_strlit("informational_version");
    } else if i == 19 {
        reveal_strlit("full_semver");
    } else if i == 20 {
        reveal_strlit("branch_name");
    } else if i == 21 {
        reveal_strlit("escaped_branch_name");
    } else if i == 22 {
        reveal_strlit("sha");
    } else if i == 23 {
        reveal_strlit("short_sha");
    } else if i == 24 {
        reveal_strlit("nuget_version_v2");
    } else if i == 25 {
        reveal_strlit("nuget_version");
    } else if i == 26 {
        reveal_strlit("nuget_prerelease_tag_v2");
    } else if i == 27 {
        reveal_strlit("nuget_prerelease_tag");
    } else if i == 28 {
        reveal_strlit("version_source_sha");
    } else if i == 29 {
        reveal_strlit("commits_since_version_source");
    } else if i == 30 {
        reveal_strlit("commits_since_version_source_padded");
    } else if i == 31 {
        reveal_strlit("uncommitted_changes");
    } else if i == 32 {
        reveal_strlit("commit_date");
    }
    let name = field_at(i).name@;
    let key = key_of(name);
    assert(key[11] == upper(name[0]));
    assert(key[12] == upper(name[1]));
}

/// No two facts are published under one key.
pub proof fn lemma_keys_differ(i: int, j: int)
    requires
        0 <= i < FIELD_COUNT,
        0 <= j < FIELD_COUNT,
        i != j,
    ensures
        key_of(field_at(i).name@) != key_of(field_at(j).name@),
{
    lemma_mark(i);
    lemma_mark(j);
}

proof fn lemma_published_is_there(facts: Seq<Fact>, n: int, i: int)
    requires
        0 <= i < n,
        is_published(facts[i]),
    ensures
        variables_upto(facts, n).contains(variable_at(facts, i)),
    decreases n,
{
    let all = variables_upto(facts, n);
    if i == n - 1 {
        assert(all[all.len() - 1] == variable_at(facts, i));
    } else {
        lemma_published_is_there(facts, n - 1, i);
        let earlier = variables_upto(facts, n - 1);
        let at = choose|k: int| 0 <= k < earlier.len() && earlier[k] == variable_at(facts, i);
        assert(all[at] == variable_at(facts, i));
    }
}

proof fn lemma_variable_origin(facts: Seq<Fact>, n: int, k: int) -> (j: int)
    requires
        0 <= k < variables_upto(facts, n).len(),
    ensures
        0 <= j < n,
        is_published(facts[j]),
        variables_upto(facts, n)[k] == variable_at(facts, j),
    decreases n,
{
    if is_published(facts[n - 1]) && k == variables_upto(facts, n - 1).len() {
        n - 1
    } else {
        lemma_variable_origin(facts, n - 1, k)
    }
}

/// Every fact that is no optional number is published, and so is an optional
/// number that is present: under its key, with its value. For an optional
/// number that is absent no variable has its key.
pub proof fn law_publish_complete(facts: Seq<Fact>, i: int)
    requires
        well_formed(facts),
        0 <= i < FIELD_COUNT,
    ensures
        field_at(i).kind != Kind::Optional ==> is_published(facts[i]),
        is_published(facts[i]) ==> variables(facts).contains(variable_at(facts, i)),
        !is_published(facts[i]) ==> forall|k: int|
            0 <= k < variables(facts).len() ==> (#[trigger] variables(facts)[k]).0 != key_of(
                field_at(i).name@,
            ),
{
    if is_published(facts[i]) {
        lemma_published_is_there(facts, FIELD_COUNT as int, i);
    } else {
        assert forall|k: int| 0 <= k < variables(facts).len() implies (#[trigger] variables(
            facts,
        )[k]).0 != key_of(field_at(i).name@) by {
            let j = lemma_variable_origin(facts, FIELD_COUNT as int, k);
            if j != i {
                lemma_keys_differ(i, j);
            }
        }
    }
}

} // verus!
