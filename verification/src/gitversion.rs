//! The descriptor: one record of all the version facts of a build.

use vstd::prelude::*;
use vstd::string::*;
use crate::schema::{field_at, Kind, FIELD_COUNT};

verus! {

/// The value of one fact, as contracts speak of it.
pub enum Fact {
    /// A number that is always there.
    Number(u32),
    /// A number that may be absent. `Some(0)` is a value like any other.
    Optional(Option<u32>),
    /// A string.
    Text(Seq<char>),
}

/// The value of one fact, borrowed from a descriptor.
#[derive(Clone, Copy, Debug)]
pub enum FactRef<'a> {
    Number(u32),
    Optional(Option<u32>),
    Text(&'a str),
}

impl<'a> View for FactRef<'a> {
    type V = Fact;

    open spec fn view(&self) -> Fact {
        match *self {
            FactRef::Number(n) => Fact::Number(n),
            FactRef::Optional(n) => Fact::Optional(n),
            FactRef::Text(s) => Fact::Text(s@),
        }
    }
}

/// The version facts of one build. The fields stand in the order of the table
/// in [`crate::schema`].
#[derive(Clone, Debug, PartialEq, Eq)]
pub struct GitVersion {
    /// The major version. Should be incremented on breaking changes.
    pub major: u32,
    /// The minor version. Should be incremented on new features.
    pub minor: u32,
    /// The patch version. Should be incremented on bug fixes.
    pub patch: u32,
    /// The pre-release tag is the pre-release label suffixed by the `pre_release_number`.
    pub pre_release_tag: String,
    /// The pre-release tag prefixed with a dash.
    pub pre_release_tag_with_dash: String,
    /// The pre-release label.
    pub pre_release_label: String,
    /// The pre-release label prefixed with a dash.
    pub pre_release_label_with_dash: String,
    /// The pre-release number.
    pub pre_release_number: Option<u32>,
    /// A summation of branch specific `pre-release-weight` and the `pre_release_number`.
    /// Can be used to obtain a monotonically increasing version number across the branches.
    pub weighted_pre_release_number: u32,
    /// The build metadata, usually representing number of commits since the `version_source_sha`.
    pub build_meta_data: Option<u32>,
    /// The `build_meta_data` padded with `0` up to `4` digits.
    pub build_meta_data_padded: String,
    /// The `build_meta_data` suffixed with `branch_name` and `sha`.
    pub full_build_meta_data: String,
    /// `major`, `minor` and `patch` joined together, separated by `.`.
    pub major_minor_patch: String,
    /// The semantical version number, including `pre_release_tag_with_dash` for pre-release version numbers.
    pub semver: String,
    /// Equal to `semver`, but without a `.` separating `pre_release_label` and `pre_release_number`.
    /// Kept for older consumers.
    pub legacy_semver: String,
    /// Equal to `legacy_semver`, but with `pre_release_number` padded with `0` up to `4` digits.
    /// Kept for older consumers.
    pub legacy_semver_padded: String,
    /// Defaults to `major.minor.0.0` to allow the assembly to be hotfixed without breaking
    /// existing applications that may be referencing it.
    /// (Suitable for .NET `AssemblyVersion`.)
    /// Kept for older consumers.
    pub assembly_semver: String,
    /// Defaults to `major.minor.patch.0`.
    /// (Suitable for .NET `AssemblyFileVersion`.)
    /// Kept for older consumers.
    pub assembly_sem_file_version: String,
    /// Defaults to `full_semver` suffixed by `full_build_meta_data`.
    /// (Suitable for .NET `AssemblyInformationalVersion`.)
    pub informational_version: String,
    /// The full, SemVer 2.0 compliant version number.
    pub full_semver: String,
    /// The name of the checked out Git branch.
    pub branch_name: String,
    /// Equal to `branch_name`, but with `/` replaced with `-`.
    pub escaped_branch_name: String,
    /// The SHA of the Git commit.
    pub sha: String,
    /// The `sha` limited to `7` characters.
    pub short_sha: String,
    /// A NuGet 2.0 compatible version number.
    /// Kept for older consumers.
    pub nuget_version_v2: String,
    /// A NuGet 1.0 compatible version number.
    /// Kept for older consumers.
    pub nuget_version: String,
    /// A NuGet 2.0 compatible `pre_release_tag`.
    /// Kept for older consumers.
    pub nuget_prerelease_tag_v2: String,
    /// A NuGet 1.0 compatible `pre_release_tag`.
    /// Kept for older consumers.
    pub nuget_prerelease_tag: String,
    /// The SHA of the commit used as version source.
    pub version_source_sha: String,
    /// The number of commits since the version source.
    pub commits_since_version_source: u32,
    /// The `commits_since_version_source` padded with `0` up to `4` digits.
    pub commits_since_version_source_padded: String,
    /// The number of uncommitted changes present in the repository.
    pub uncommitted_changes: u32,
    /// The ISO-8601 formatted date of the commit identified by `sha`.
    pub commit_date: String,
}

impl GitVersion {
    /// The value of fact `i`.
    pub open spec fn fact(&self, i: int) -> Fact
        recommends
            0 <= i < FIELD_COUNT,
    {
        if i == 0 {
            Fact::Number(self.major)
        } else if i == 1 {
            Fact::Number(self.minor)
        } else if i == 2 {
            Fact::Number(self.patch)
        } else if i == 3 {
            Fact::Text(self.pre_release_tag@)
        } else if i == 4 {
            Fact::Text(self.pre_release_tag_with_dash@)
        } else if i == 5 {
            Fact::Text(self.pre_release_label@)
        } else if i == 6 {
            Fact::Text(self.pre_release_label_with_dash@)
        } else if i == 7 {
            Fact::Optional(self.pre_release_number)
        } else if i == 8 {
            Fact::Number(self.weighted_pre_release_number)
        } else if i == 9 {
            Fact::Optional(self.build_meta_data)
        } else if i == 10 {
            Fact::Text(self.build_meta_data_padded@)
        } else if i == 11 {
            Fact::Text(self.full_build_meta_data@)
        } else if i == 12 {
            Fact::Text(self.major_minor_patch@)
        } else if i == 13 {
            Fact::Text(self.semver@)
        } else if i == 14 {
            Fact::Text(self.legacy_semver@)
        } else if i == 15 {
            Fact::Text(self.legacy_semver_padded@)
        } else if i == 16 {
            Fact::Text(self.assembly_semver@)
        } else if i == 17 {
            Fact::Text(self.assembly_sem_file_version@)
        } else if i == 18 {
            Fact::Text(self.informational_version@)
        } else if i == 19 {
            Fact::Text(self.full_semver@)
        } else if i == 20 {
            Fact::Text(self.branch_name@)
        } else if i == 21 {
            Fact::Text(self.escaped_branch_name@)
        } else if i == 22 {
            Fact::Text(self.sha@)
        } else if i == 23 {
            Fact::Text(self.short_sha@)
        } else if i == 24 {
            Fact::Text(self.nuget_version_v2@)
        } else if i == 25 {
            Fact::Text(self.nuget_version@)
        } else if i == 26 {
            Fact::Text(self.nuget_prerelease_tag_v2@)
        } else if i == 27 {
            Fact::Text(self.nuget_prerelease_tag@)
        } else if i == 28 {
            Fact::Text(self.version_source_sha@)
        } else if i == 29 {
            Fact::Number(self.commits_since_version_source)
        } else if i == 30 {
            Fact::Text(self.commits_since_version_source_padded@)
        } else if i == 31 {
            Fact::Number(self.uncommitted_changes)
        } else {
            Fact::Text(self.commit_date@)
        }
    }

    /// The value of fact `i`, for `i` below [`FIELD_COUNT`].
    pub fn get(&self, i: usize) -> (r: Option<FactRef<'_>>)
        ensures
            match r {
                Some(found) => i < FIELD_COUNT && found@ == self.fact(i as int),
                None => i >= FIELD_COUNT,
            },
    {
        let found = match i {
            0 => FactRef::Number(self.major),
            1 => FactRef::Number(self.minor),
            2 => FactRef::Number(self.patch),
            3 => FactRef::Text(self.pre_release_tag.as_str()),
            4 => FactRef::Text(self.pre_release_tag_with_dash.as_str()),
            5 => FactRef::Text(self.pre_release_label.as_str()),
            6 => FactRef::Text(self.pre_release_label_with_dash.as_str()),
            7 => FactRef::Optional(self.pre_release_number),
            8 => FactRef::Number(self.weighted_pre_release_number),
            9 => FactRef::Optional(self.build_meta_data),
            10 => FactRef::Text(self.build_meta_data_padded.as_str()),
            11 => FactRef::Text(self.full_build_meta_data.as_str()),
            12 => FactRef::Text(self.major_minor_patch.as_str()),
            13 => FactRef::Text(self.semver.as_str()),
            14 => FactRef::Text(self.legacy_semver.as_str()),
            15 => FactRef::Text(self.legacy_semver_padded.as_str()),
            16 => FactRef::Text(self.assembly_semver.as_str()),
            17 => FactRef::Text(self.assembly_sem_file_version.as_str()),
            18 => FactRef::Text(self.informational_version.as_str()),
            19 => FactRef::Text(self.full_semver.as_str()),
            20 => FactRef::Text(self.branch_name.as_str()),
            21 => FactRef::Text(self.escaped_branch_name.as_str()),
            22 => FactRef::Text(self.sha.as_str()),
            23 => FactRef::Text(self.short_sha.as_str()),
            24 => FactRef::Text(self.nuget_version_v2.as_str()),
            25 => FactRef::Text(self.nuget_version.as_str()),
            26 => FactRef::Text(self.nuget_prerelease_tag_v2.as_str()),
            27 => FactRef::Text(self.nuget_prerelease_tag.as_str()),
            28 => FactRef::Text(self.version_source_sha.as_str()),
            29 => FactRef::Number(self.commits_since_version_source),
            30 => FactRef::Text(self.commits_since_version_source_padded.as_str()),
            31 => FactRef::Number(self.uncommitted_changes),
            32 => FactRef::Text(self.commit_date.as_str()),
            _ => {
                return None;
            },
        };
        Some(found)
    }

    /// A descriptor's facts are well formed: the required numbers are always
    /// there, and every other fact is of its row's kind.
    pub proof fn lemma_well_formed(&self)
        ensures
            well_formed(self@),
    {
    }

    /// The text that stands for the descriptor where a version is shown: the
    /// semantic version.
    pub fn display(&self) -> (r: String)
        ensures
            r@ == self.semver@,
    {
        self.semver.clone()
    }

    /// The text that stands for the descriptor where it is inspected: the
    /// informational version.
    pub fn debug(&self) -> (r: String)
        ensures
            r@ == self.informational_version@,
    {
        self.informational_version.clone()
    }
}

impl View for GitVersion {
    type V = Seq<Fact>;

    /// A descriptor is its facts, in the order of the table.
    open spec fn view(&self) -> Seq<Fact> {
        Seq::new(FIELD_COUNT as nat, |i: int| self.fact(i))
    }
}

/// Whether the fact is of the kind: a number for a required or defaulted
/// number, an optional number, a string.
pub open spec fn shaped(fact: Fact, kind: Kind) -> bool {
    match kind {
        Kind::Required => fact is Number,
        Kind::Defaulted => fact is Number,
        Kind::Optional => fact is Optional,
        Kind::Text => fact is Text,
    }
}

/// Whether these are the facts of a descriptor: one for each row of the table,
/// each of its row's kind.
pub open spec fn well_formed(facts: Seq<Fact>) -> bool {
    &&& facts.len() == FIELD_COUNT
    &&& forall|i: int| 0 <= i < FIELD_COUNT ==> shaped(#[trigger] facts[i], field_at(i).kind)
}

/// The value of a fact of which nothing is known: zero, absent, or the empty
/// string.
pub open spec fn default_fact(kind: Kind) -> Fact {
    match kind {
        Kind::Required => Fact::Number(0),
        Kind::Defaulted => Fact::Number(0),
        Kind::Optional => Fact::Optional(None),
        Kind::Text => Fact::Text(Seq::empty()),
    }
}

/// The facts of the descriptor of which nothing is known.
pub open spec fn default_facts() -> Seq<Fact> {
    Seq::new(FIELD_COUNT as nat, |i: int| default_fact(field_at(i).kind))
}

impl Default for GitVersion {
    /// The descriptor of which nothing is known: every number zero, every
    /// optional number absent, every string empty.
    fn default() -> (r: GitVersion)
        ensures
            r@ == default_facts(),
    {
        let r = GitVersion {
            major: 0,
            minor: 0,
            patch: 0,
            pre_release_tag: String::new(),
            pre_release_tag_with_dash: String::new(),
            pre_release_label: String::new(),
            pre_release_label_with_dash: String::new(),
            pre_release_number: None,
            weighted_pre_release_number: 0,
            build_meta_data: None,
            build_meta_data_padded: String::new(),
            full_build_meta_data: String::new(),
            major_minor_patch: String::new(),
            semver: String::new(),
            legacy_semver: String::new(),
            legacy_semver_padded: String::new(),
            assembly_semver: String::new(),
            assembly_sem_file_version: String::new(),
            informational_version: String::new(),
            full_semver: String::new(),
            branch_name: String::new(),
            escaped_branch_name: String::new(),
            sha: String::new(),
            short_sha: String::new(),
            nuget_version_v2: String::new(),
            nuget_version: String::new(),
            nuget_prerelease_tag_v2: String::new(),
            nuget_prerelease_tag: String::new(),
            version_source_sha: String::new(),
            commits_since_version_source: 0,
            commits_since_version_source_padded: String::new(),
            uncommitted_changes: 0,
            commit_date: String::new(),
        };
        assert(r@ =~= default_facts());
        r
    }
}

} // verus!
