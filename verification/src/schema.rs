//! The table of version facts: for each fact its name in a document, its name
//! in the descriptor, how it is typed, and what the generated source says of it.
//!
//! The table stands twice, once for contracts and once for running code; the
//! second is proved equal to the first.

use vstd::prelude::*;

verus! {

/// How a fact is typed and what a document may leave out.
#[derive(Clone, Copy, PartialEq, Eq, Structural, Debug)]
pub enum Kind {
    /// A number that a document must give.
    Required,
    /// A number that is zero where a document leaves it out.
    Defaulted,
    /// A number that may be absent, which is not the same as zero.
    Optional,
    /// A string that is empty where a document leaves it out.
    Text,
}

/// One row of the table.
#[derive(Clone, Copy, Debug)]
pub struct Field {
    /// The member's name in a document. Case matters.
    pub key: &'static str,
    /// The field's name in the descriptor, in lower snake case.
    pub name: &'static str,
    pub kind: Kind,
    /// Whether the fact is kept only for older consumers.
    pub deprecated: bool,
    /// The comment lines that the generated source puts above the field.
    pub doc: &'static str,
}

/// The number of facts in a descriptor.
pub const FIELD_COUNT: usize = 33;

/// The row of fact `i`. Rows are in the order of the descriptor's fields.
pub open spec fn field_at(i: int) -> Field
    recommends
        0 <= i < FIELD_COUNT,
{
    if i == 0 {
        Field {
            key: "Major",
            name: "major",
            kind: Kind::Required,
            deprecated: false,
            doc: "    /// The major version. Should be incremented on breaking changes.\n",
        }
    } else if i == 1 {
        Field {
            key: "Minor",
            name: "minor",
            kind: Kind::Required,
            deprecated: false,
            doc: "    /// The minor version. Should be incremented on new features.\n",
        }
    } else if i == 2 {
        Field {
            key: "Patch",
            name: "patch",
            kind: Kind::Required,
            deprecated: false,
            doc: "    /// The patch version. Should be incremented on bug fixes.\n",
        }
    } else if i == 3 {
        Field {
            key: "PreReleaseTag",
            name: "pre_release_tag",
            kind: Kind::Text,
            deprecated: false,
            doc: "    /// The pre-release tag is the pre-release label suffixed by the `pre_release_number`.\n",
        }
    } else if i == 4 {
        Field {
            key: "PreReleaseTagWithDash",
            name: "pre_release_tag_with_dash",
            kind: Kind::Text,
            deprecated: false,
            doc: "    /// The pre-release tag prefixed with a dash.\n",
        }
    } else if i == 5 {
        Field {
            key: "PreReleaseLabel",
            name: "pre_release_label",
            kind: Kind::Text,
            deprecated: false,
            doc: "    /// The pre-release label.\n",
        }
    } else if i == 6 {
        Field {
            key: "PreReleaseLabelWithDash",
            name: "pre_release_label_with_dash",
            kind: Kind::Text,
            deprecated: false,
            doc: "    /// The pre-release label prefixed with a dash.\n",
        }
    } else if i == 7 {
        Field {
            key: "PreReleaseNumber",
            name: "pre_release_number",
            kind: Kind::Optional,
            deprecated: false,
            doc: "    /// The pre-release number.\n",
        }
    } else if i == 8 {
        Field {
            key: "WeightedPreReleaseNumber",
            name: "weighted_pre_release_number",
            kind: Kind::Defaulted,
            deprecated: false,
            doc: "    /// A summation of branch specific `pre-release-weight` and the `pre_release_number`.\n    /// Can be used to obtain a monotonically increasing version number across the branches.\n",
        }
    } else if i == 9 {
        Field {
            key: "BuildMetaData",
            name: "build_meta_data",
            kind: Kind::Optional,
            deprecated: false,
            doc: "    /// The build metadata, usually representing number of commits since the `version_source_sha`.\n",
        }
    } else if i == 10 {
        Field {
            key: "BuildMetaDataPadded",
            name: "build_meta_data_padded",
            kind: Kind::Text,
            deprecated: false,
            doc: "    /// The `build_meta_data` padded with `0` up to `4` digits.\n",
        }
    } else if i == 11 {
        Field {
            key: "FullBuildMetaData",
            name: "full_build_meta_data",
            kind: Kind::Text,
            deprecated: false,
            doc: "    /// The `build_meta_data` suffixed with `branch_name` and `sha`.\n",
        }
    } else if i == 12 {
        Field {
            key: "MajorMinorPatch",
            name: "major_minor_patch",
            kind: Kind::Text,
            deprecated: false,
            doc: "    /// `major`, `minor` and `patch` joined together, separated by `.`.\n",
        }
    } else if i == 13 {
        Field {
            key: "SemVer",
            name: "semver",
            kind: Kind::Text,
            deprecated: false,
            doc: "    /// The semantical version number, including `pre_release_tag_with_dash` for pre-release version numbers.\n",
        }
    } else if i == 14 {
        Field {
            key: "LegacySemVer",
            name: "legacy_semver",
            kind: Kind::Text,
            deprecated: true,
            doc: "    /// Equal to `semver`, but without a `.` separating `pre_release_label` and `pre_release_number`.\n",
        }
    } else if i == 15 {
        Field {
            key: "LegacySemVerPadded",
            name: "legacy_semver_padded",
            kind: Kind::Text,
            deprecated: true,
            doc: "    /// Equal to `legacy_semver`, but with `pre_release_number` padded with `0` up to `4` digits.\n",
        }
    } else if i == 16 {
        Field {
            key: "AssemblySemVer",
            name: "assembly_semver",
            kind: Kind::Text,
            deprecated: true,
            doc: "    /// Defaults to `major.minor.0.0` to allow the assembly to be hotfixed without breaking\n    /// existing applications that may be referencing it.\n    /// (Suitable for .NET `AssemblyVersion`.)\n",
        }
    } else if i == 17 {
        Field {
            key: "AssemblySemFileVer",
            name: "assembly_sem_file_version",
            kind: Kind::Text,
            deprecated: true,
            doc: "    /// Defaults to `major.minor.patch.0`.\n    /// (Suitable for .NET `AssemblyFileVersion`.)\n",
        }
    } else if i == 18 {
        Field {
            key: "InformationalVersion",
            name: "informational_version",
            kind: Kind::Text,
            deprecated: false,
            doc: "    /// Defaults to `full_semver` suffixed by `full_build_meta_data`.\n    /// (Suitable for .NET `AssemblyInformationalVersion`.)\n",
        }
    } else if i == 19 {
        Field {
            key: "FullSemVer",
            name: "full_semver",
            kind: Kind::Text,
            deprecated: false,
            doc: "    /// The full, SemVer 2.0 compliant version number.\n",
        }
    } else if i == 20 {
        Field {
            key: "BranchName",
            name: "branch_name",
            kind: Kind::Text,
            deprecated: false,
            doc: "    /// The name of the checked out Git branch.\n",
        }
    } else if i == 21 {
        Field {
            key: "EscapedBranchName",
            name: "escaped_branch_name",
            kind: Kind::Text,
            deprecated: false,
            doc: "    /// Equal to `branch_name`, but with `/` replaced with `-`.\n",
        }
    } else if i == 22 {
        Field {
            key: "Sha",
            name: "sha",
            kind: Kind::Text,
            deprecated: false,
            doc: "    /// The SHA of the Git commit.\n",
        }
    } else if i == 23 {
        Field {
            key: "ShortSha",
            name: "short_sha",
            kind: Kind::Text,
            deprecated: false,
            doc: "    /// The `sha` limited to `7` characters.\n",
        }
    } else if i == 24 {
        Field {
            key: "NuGetVersionV2",
            name: "nuget_version_v2",
            kind: Kind::Text,
            deprecated: true,
            doc: "    /// A NuGet 2.0 compatible version number.\n",
        }
    } else if i == 25 {
        Field {
            key: "NuGetVersion",
            name: "nuget_version",
            kind: Kind::Text,
            deprecated: true,
            doc: "    /// A NuGet 1.0 compatible version number.\n",
        }
    } else if i == 26 {
        Field {
            key: "NuGetPreReleaseTagV2",
            name: "nuget_prerelease_tag_v2",
            kind: Kind::Text,
            deprecated: true,
            doc: "    /// A NuGet 2.0 compatible `pre_release_tag`.\n",
        }
    } else if i == 27 {
        Field {
            key: "NuGetPreReleaseTag",
            name: "nuget_prerelease_tag",
            kind: Kind::Text,
            deprecated: true,
            doc: "    /// A NuGet 1.0 compatible `pre_release_tag`.\n",
        }
    } else if i == 28 {
        Field {
            key: "VersionSourceSha",
            name: "version_source_sha",
            kind: Kind::Text,
            deprecated: false,
            doc: "    /// The SHA of the commit used as version source.\n",
        }
    } else if i == 29 {
        Field {
            key: "CommitsSinceVersionSource",
            name: "commits_since_version_source",
            kind: Kind::Defaulted,
            deprecated: false,
            doc: "    /// The number of commits since the version source.\n",
        }
    } else if i == 30 {
        Field {
            key: "CommitsSinceVersionSourcePadded",
            name: "commits_since_version_source_padded",
            kind: Kind::Text,
            deprecated: false,
            doc: "    /// The `commits_since_version_source` padded with `0` up to `4` digits.\n",
        }
    } else if i == 31 {
        Field {
            key: "UncommittedChanges",
            name: "uncommitted_changes",
            kind: Kind::Defaulted,
            deprecated: false,
            doc: "    /// The number of uncommitted changes present in the repository.\n",
        }
    } else {
        Field {
            key: "CommitDate",
            name: "commit_date",
            kind: Kind::Text,
            deprecated: false,
            doc: "    /// The ISO-8601 formatted date of the commit identified by `sha`.\n",
        }
    }
}

/// The row of fact `i`, for `i` below [`FIELD_COUNT`].
pub fn field(i: usize) -> (r: Option<Field>)
    ensures
        r == if i < FIELD_COUNT {
            Some(field_at(i as int))
        } else {
            None
        },
{
    let row = match i {
        0 => Field {
            key: "Major",
            name: "major",
            kind: Kind::Required,
            deprecated: false,
            doc: "    /// The major version. Should be incremented on breaking changes.\n",
        },
        1 => Field {
            key: "Minor",
            name: "minor",
            kind: Kind::Required,
            deprecated: false,
            doc: "    /// The minor version. Should be incremented on new features.\n",
        },
        2 => Field {
            key: "Patch",
            name: "patch",
            kind: Kind::Required,
            deprecated: false,
            doc: "    /// The patch version. Should be incremented on bug fixes.\n",
        },
        3 => Field {
            key: "PreReleaseTag",
            name: "pre_release_tag",
            kind: Kind::Text,
            deprecated: false,
            doc: "    /// The pre-release tag is the pre-release label suffixed by the `pre_release_number`.\n",
        },
        4 => Field {
            key: "PreReleaseTagWithDash",
            name: "pre_release_tag_with_dash",
            kind: Kind::Text,
            deprecated: false,
            doc: "    /// The pre-release tag prefixed with a dash.\n",
        },
        5 => Field {
            key: "PreReleaseLabel",
            name: "pre_release_label",
            kind: Kind::Text,
            deprecated: false,
            doc: "    /// The pre-release label.\n",
        },
        6 => Field {
            key: "PreReleaseLabelWithDash",
            name: "pre_release_label_with_dash",
            kind: Kind::Text,
            deprecated: false,
            doc: "    /// The pre-release label prefixed with a dash.\n",
        },
        7 => Field {
            key: "PreReleaseNumber",
            name: "pre_release_number",
            kind: Kind::Optional,
            deprecated: false,
            doc: "    /// The pre-release number.\n",
        },
        8 => Field {
            key: "WeightedPreReleaseNumber",
            name: "weighted_pre_release_number",
            kind: Kind::Defaulted,
            deprecated: false,
            doc: "    /// A summation of branch specific `pre-release-weight` and the `pre_release_number`.\n    /// Can be used to obtain a monotonically increasing version number across the branches.\n",
        },
        9 => Field {
            key: "BuildMetaData",
            name: "build_meta_data",
            kind: Kind::Optional,
            deprecated: false,
            doc: "    /// The build metadata, usually representing number of commits since the `version_source_sha`.\n",
        },
        10 => Field {
            key: "BuildMetaDataPadded",
            name: "build_meta_data_padded",
            kind: Kind::Text,
            deprecated: false,
            doc: "    /// The `build_meta_data` padded with `0` up to `4` digits.\n",
        },
        11 => Field {
            key: "FullBuildMetaData",
            name: "full_build_meta_data",
            kind: Kind::Text,
            deprecated: false,
            doc: "    /// The `build_meta_data` suffixed with `branch_name` and `sha`.\n",
        },
        12 => Field {
            key: "MajorMinorPatch",
            name: "major_minor_patch",
            kind: Kind::Text,
            deprecated: false,
            doc: "    /// `major`, `minor` and `patch` joined together, separated by `.`.\n",
        },
        13 => Field {
            key: "SemVer",
            name: "semver",
            kind: Kind::Text,
            deprecated: false,
            doc: "    /// The semantical version number, including `pre_release_tag_with_dash` for pre-release version numbers.\n",
        },
        14 => Field {
            key: "LegacySemVer",
            name: "legacy_semver",
            kind: Kind::Text,
            deprecated: true,
            doc: "    /// Equal to `semver`, but without a `.` separating `pre_release_label` and `pre_release_number`.\n",
        },
        15 => Field {
            key: "LegacySemVerPadded",
            name: "legacy_semver_padded",
            kind: Kind::Text,
            deprecated: true,
            doc: "    /// Equal to `legacy_semver`, but with `pre_release_number` padded with `0` up to `4` digits.\n",
        },
        16 => Field {
            key: "AssemblySemVer",
            name: "assembly_semver",
            kind: Kind::Text,
            deprecated: true,
            doc: "    /// Defaults to `major.minor.0.0` to allow the assembly to be hotfixed without breaking\n    /// existing applications that may be referencing it.\n    /// (Suitable for .NET `AssemblyVersion`.)\n",
        },
        17 => Field {
            key: "AssemblySemFileVer",
            name: "assembly_sem_file_version",
            kind: Kind::Text,
            deprecated: true,
            doc: "    /// Defaults to `major.minor.patch.0`.\n    /// (Suitable for .NET `AssemblyFileVersion`.)\n",
        },
        18 => Field {
            key: "InformationalVersion",
            name: "informational_version",
            kind: Kind::Text,
            deprecated: false,
            doc: "    /// Defaults to `full_semver` suffixed by `full_build_meta_data`.\n    /// (Suitable for .NET `AssemblyInformationalVersion`.)\n",
        },
        19 => Field {
            key: "FullSemVer",
            name: "full_semver",
            kind: Kind::Text,
            deprecated: false,
            doc: "    /// The full, SemVer 2.0 compliant version number.\n",
        },
        20 => Field {
            key: "BranchName",
            name: "branch_name",
            kind: Kind::Text,
            deprecated: false,
            doc: "    /// The name of the checked out Git branch.\n",
        },
        21 => Field {
            key: "EscapedBranchName",
            name: "escaped_branch_name",
            kind: Kind::Text,
            deprecated: false,
            doc: "    /// Equal to `branch_name`, but with `/` replaced with `-`.\n",
        },
        22 => Field {
            key: "Sha",
            name: "sha",
            kind: Kind::Text,
            deprecated: false,
            doc: "    /// The SHA of the Git commit.\n",
        },
        23 => Field {
            key: "ShortSha",
            name: "short_sha",
            kind: Kind::Text,
            deprecated: false,
            doc: "    /// The `sha` limited to `7` characters.\n",
        },
        24 => Field {
            key: "NuGetVersionV2",
            name: "nuget_version_v2",
            kind: Kind::Text,
            deprecated: true,
            doc: "    /// A NuGet 2.0 compatible version number.\n",
        },
        25 => Field {
            key: "NuGetVersion",
            name: "nuget_version",
            kind: Kind::Text,
            deprecated: true,
            doc: "    /// A NuGet 1.0 compatible version number.\n",
        },
        26 => Field {
            key: "NuGetPreReleaseTagV2",
            name: "nuget_prerelease_tag_v2",
            kind: Kind::Text,
            deprecated: true,
            doc: "    /// A NuGet 2.0 compatible `pre_release_tag`.\n",
        },
        27 => Field {
            key: "NuGetPreReleaseTag",
            name: "nuget_prerelease_tag",
            kind: Kind::Text,
            deprecated: true,
            doc: "    /// A NuGet 1.0 compatible `pre_release_tag`.\n",
        },
        28 => Field {
            key: "VersionSourceSha",
            name: "version_source_sha",
            kind: Kind::Text,
            deprecated: false,
            doc: "    /// The SHA of the commit used as version source.\n",
        },
        29 => Field {
            key: "CommitsSinceVersionSource",
            name: "commits_since_version_source",
            kind: Kind::Defaulted,
            deprecated: false,
            doc: "    /// The number of commits since the version source.\n",
        },
        30 => Field {
            key: "CommitsSinceVersionSourcePadded",
            name: "commits_since_version_source_padded",
            kind: Kind::Text,
            deprecated: false,
            doc: "    /// The `commits_since_version_source` padded with `0` up to `4` digits.\n",
        },
        31 => Field {
            key: "UncommittedChanges",
            name: "uncommitted_changes",
            kind: Kind::Defaulted,
            deprecated: false,
            doc: "    /// The number of uncommitted changes present in the repository.\n",
        },
        32 => Field {
            key: "CommitDate",
            name: "commit_date",
            kind: Kind::Text,
            deprecated: false,
            doc: "    /// The ISO-8601 formatted date of the commit identified by `sha`.\n",
        },
        _ => {
            return None;
        },
    };
    Some(row)
}

} // verus!
