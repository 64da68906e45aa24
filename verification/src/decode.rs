//! Decoding: from the text of a document to a descriptor.
//!
//! A document is read in two steps. The first looks up, for each fact of the
//! table, what the document holds under the fact's name: its slot. The second
//! builds the descriptor from the slots, or says which fact is at fault.
//!
//! Names are matched letter for letter. Members that no fact is named after
//! are passed over, and of two members of one name the parser keeps the later.

use vstd::prelude::*;
use vstd::string::*;
use serde_json::Error as SyntaxError;
use crate::gitversion::{default_facts, well_formed, Fact, GitVersion};
use crate::json::{content, empty_object_text, member, member_of, parse, parsed, Json};
use crate::schema::{field, field_at, Kind, FIELD_COUNT};

verus! {

/// What a document holds under the name of one fact.
#[derive(Clone, Debug, PartialEq, Eq)]
pub enum Slot {
    /// No member of that name.
    Absent,
    /// The member is `null`.
    Null,
    /// The member is a number that fits a `u64`.
    Unsigned(u64),
    /// The member is a string.
    Text(String),
    /// The member is anything else.
    Other,
}

/// A slot, as contracts speak of it.
pub enum SlotView {
    Absent,
    Null,
    Unsigned(u64),
    Text(Seq<char>),
    Other,
}

impl View for Slot {
    type V = SlotView;

    open spec fn view(&self) -> SlotView {
        match *self {
            Slot::Absent => SlotView::Absent,
            Slot::Null => SlotView::Null,
            Slot::Unsigned(n) => SlotView::Unsigned(n),
            Slot::Text(text) => SlotView::Text(text@),
            Slot::Other => SlotView::Other,
        }
    }
}

/// Why a document gives no descriptor.
#[derive(Debug)]
pub enum DecodeError {
    /// The text is no JSON document.
    Syntax(SyntaxError),
    /// The document is no object.
    NotAnObject,
    /// The document lacks the required member of this name.
    Missing(&'static str),
    /// The member of this name is not of the fact's type, or is a number that
    /// does not fit a `u32`.
    Invalid(&'static str),
}

/// The slots of a sequence of them.
pub open spec fn views(slots: Seq<Slot>) -> Seq<SlotView> {
    slots.map_values(|slot: Slot| slot@)
}

/// The members of an object; no members for any other value.
pub open spec fn members_of(doc: Json) -> Map<Seq<char>, Json> {
    match doc {
        Json::Object(members) => members,
        _ => Map::empty(),
    }
}

/// The slot of a member that was looked up.
pub open spec fn slot_of(found: Option<Json>) -> SlotView {
    match found {
        None => SlotView::Absent,
        Some(Json::Null) => SlotView::Null,
        Some(Json::Unsigned(n)) => SlotView::Unsigned(n),
        Some(Json::Text(text)) => SlotView::Text(text),
        Some(_) => SlotView::Other,
    }
}

/// The slots of an object with these members, one for each fact of the table.
pub open spec fn slots_of(members: Map<Seq<char>, Json>) -> Seq<SlotView> {
    Seq::new(FIELD_COUNT as nat, |i: int| slot_of(member_of(members, field_at(i).key@)))
}

/// The slot of fact `i`. Where the sequence is too short the slot is absent.
pub open spec fn slot_at(slots: Seq<SlotView>, i: int) -> SlotView {
    if 0 <= i < slots.len() {
        slots[i]
    } else {
        SlotView::Absent
    }
}

/// Whether the slot holds a number that fits a `u32`.
pub open spec fn fits(slot: SlotView) -> bool {
    slot matches SlotView::Unsigned(n) && n <= u32::MAX
}

/// Whether a fact of this kind can be read from the slot.
pub open spec fn conforms(kind: Kind, slot: SlotView) -> bool {
    match kind {
        Kind::Required => fits(slot),
        Kind::Defaulted => slot is Absent || fits(slot),
        Kind::Optional => slot is Absent || slot is Null || fits(slot),
        Kind::Text => slot is Absent || slot is Text,
    }
}

/// The number in the slot; zero where it holds none that fits.
pub open spec fn number_of(slot: SlotView) -> u32 {
    match slot {
        SlotView::Unsigned(n) => if n <= u32::MAX {
            n as u32
        } else {
            0
        },
        _ => 0,
    }
}

/// The number in the slot, if it holds one that fits.
pub open spec fn optional_of(slot: SlotView) -> Option<u32> {
    match slot {
        SlotView::Unsigned(n) => if n <= u32::MAX {
            Some(n as u32)
        } else {
            None
        },
        _ => None,
    }
}

/// The string in the slot; the empty string where it holds none.
pub open spec fn text_of(slot: SlotView) -> Seq<char> {
    match slot {
        SlotView::Text(text) => text,
        _ => Seq::empty(),
    }
}

/// The fact of this kind that a conforming slot gives.
pub open spec fn value_of(kind: Kind, slot: SlotView) -> Fact {
    match kind {
        Kind::Required => Fact::Number(number_of(slot)),
        Kind::Defaulted => Fact::Number(number_of(slot)),
        Kind::Optional => Fact::Optional(optional_of(slot)),
        Kind::Text => Fact::Text(text_of(slot)),
    }
}

/// What is wrong with the slot of fact `i`, if anything.
pub open spec fn fault_at(slots: Seq<SlotView>, i: int) -> Option<DecodeError> {
    let row = field_at(i);
    let slot = slot_at(slots, i);
    if conforms(row.kind, slot) {
        None
    } else if slot is Absent {
        Some(DecodeError::Missing(row.key))
    } else {
        Some(DecodeError::Invalid(row.key))
    }
}

/// The fault of the first fact from `i` on that has one.
pub open spec fn first_fault(slots: Seq<SlotView>, i: int) -> Option<DecodeError>
    decreases FIELD_COUNT - i,
{
    if 0 <= i < FIELD_COUNT {
        match fault_at(slots, i) {
            Some(fault) => Some(fault),
            None => first_fault(slots, i + 1),
        }
    } else {
        None
    }
}

/// Whether the document gives none of the facts.
pub open spec fn blank(slots: Seq<SlotView>) -> bool {
    forall|i: int| 0 <= i < FIELD_COUNT ==> #[trigger] slot_at(slots, i) is Absent
}

/// The facts that each slot gives.
pub open spec fn values(slots: Seq<SlotView>) -> Seq<Fact> {
    Seq::new(FIELD_COUNT as nat, |i: int| value_of(field_at(i).kind, slot_at(slots, i)))
}

/// The descriptor that the slots give.
///
/// A document that gives none of the facts stands for a build of which nothing
/// is known, and gives the default descriptor. Any other document must give
/// the required numbers, and each member that it gives must be of its fact's
/// type; the first fact in the order of the table that fails this is reported.
pub open spec fn assembled(slots: Seq<SlotView>) -> Result<Seq<Fact>, DecodeError> {
    if blank(slots) {
        Ok(default_facts())
    } else {
        match first_fault(slots, 0) {
            Some(fault) => Err(fault),
            None => Ok(values(slots)),
        }
    }
}

/// The descriptor that a parsed document gives.
pub open spec fn decoded(doc: Json) -> Result<Seq<Fact>, DecodeError> {
    match doc {
        Json::Object(members) => assembled(slots_of(members)),
        _ => Err(DecodeError::NotAnObject),
    }
}

/// Looks up what `doc` holds under `key`.
pub fn read_slot(doc: &serde_json::Value, key: &str) -> (r: Slot)
    ensures
        r@ == slot_of(member_of(members_of(content(*doc)), key@)),
{
    match member(doc, key) {
        None => Slot::Absent,
        Some(found) => {
            if found.is_null() {
                Slot::Null
            } else {
                match found.as_u64() {
                    Some(n) => Slot::Unsigned(n),
                    None => match found.as_str() {
                        Some(text) => Slot::Text(String::from_str(text)),
                        None => Slot::Other,
                    },
                }
            }
        },
    }
}

/// Looks up the slot of each fact of the table.
pub fn read_slots(doc: &serde_json::Value) -> (r: Vec<Slot>)
    ensures
        views(r@) == slots_of(members_of(content(*doc))),
{
    let mut slots: Vec<Slot> = Vec::new();
    let mut i: usize = 0;
    while i < FIELD_COUNT
        invariant
            i <= FIELD_COUNT,
            slots@.len() == i,
            forall|j: int|
                0 <= j < i ==> (#[trigger] slots@[j])@ == slot_of(
                    member_of(members_of(content(*doc)), field_at(j).key@),
                ),
        decreases FIELD_COUNT - i,
    {
        match field(i) {
            Some(row) => {
                slots.push(read_slot(doc, row.key));
            },
            None => {},
        }
        i = i + 1;
    }
    assert(views(slots@) =~= slots_of(members_of(content(*doc))));
    slots
}

/// Whether every fact's slot is absent.
fn is_blank(slots: &Vec<Slot>) -> (r: bool)
    ensures
        r == blank(views(slots@)),
{
    let mut i: usize = 0;
    while i < FIELD_COUNT && i < slots.len()
        invariant
            i <= FIELD_COUNT,
            forall|j: int| 0 <= j < i ==> #[trigger] slot_at(views(slots@), j) is Absent,
        decreases FIELD_COUNT - i,
    {
        match &slots[i] {
            Slot::Absent => {},
            _ => {
                assert(!(slot_at(views(slots@), i as int) is Absent));
                return false;
            },
        }
        i = i + 1;
    }
    true
}

/// What is wrong with the slot of fact `i`, if anything.
fn fault_in(slots: &Vec<Slot>, i: usize) -> (r: Option<DecodeError>)
    requires
        i < FIELD_COUNT,
    ensures
        r == fault_at(views(slots@), i as int),
{
    let row = match field(i) {
        Some(row) => row,
        None => {
            return None;
        },
    };
    if i >= slots.len() {
        return match row.kind {
            Kind::Required => Some(DecodeError::Missing(row.key)),
            _ => None,
        };
    }
    let ok = match &slots[i] {
        Slot::Absent => {
            return match row.kind {
                Kind::Required => Some(DecodeError::Missing(row.key)),
                _ => None,
            };
        },
        Slot::Null => match row.kind {
            Kind::Optional => true,
            _ => false,
        },
        Slot::Unsigned(n) => match row.kind {
            Kind::Text => false,
            _ => *n <= 0xffff_ffff,
        },
        Slot::Text(_) => match row.kind {
            Kind::Text => true,
            _ => false,
        },
        Slot::Other => false,
    };
    if ok {
        None
    } else {
        Some(DecodeError::Invalid(row.key))
    }
}

/// The number in slot `i`; zero where there is none that fits.
fn number_in(slots: &Vec<Slot>, i: usize) -> (r: u32)
    ensures
        r == number_of(slot_at(views(slots@), i as int)),
{
    if i < slots.len() {
        match &slots[i] {
            Slot::Unsigned(n) => {
                if *n <= 0xffff_ffff {
                    return *n as u32;
                }
            },
            _ => {},
        }
    }
    0
}

/// The number in slot `i`, if there is one that fits.
fn optional_in(slots: &Vec<Slot>, i: usize) -> (r: Option<u32>)
    ensures
        r == optional_of(slot_at(views(slots@), i as int)),
{
    if i < slots.len() {
        match &slots[i] {
            Slot::Unsigned(n) => {
                if *n <= 0xffff_ffff {
                    return Some(*n as u32);
                }
            },
            _ => {},
        }
    }
    None
}

/// The string in slot `i`; the empty string where there is none.
fn text_in(slots: &Vec<Slot>, i: usize) -> (r: String)
    ensures
        r@ == text_of(slot_at(views(slots@), i as int)),
{
    if i < slots.len() {
        match &slots[i] {
            Slot::Text(text) => {
                return text.clone();
            },
            _ => {},
        }
    }
    String::new()
}

/// Builds the descriptor from the slots of a document, one slot for each fact
/// in the order of the table. A slot that the sequence lacks counts as absent.
pub fn assemble(slots: &Vec<Slot>) -> (r: Result<GitVersion, DecodeError>)
    ensures
        match assembled(views(slots@)) {
            Ok(facts) => r matches Ok(version) && version@ == facts,
            Err(fault) => r == Err::<GitVersion, DecodeError>(fault),
        },
{
    if is_blank(slots) {
        return Ok(GitVersion::default());
    }
    let mut i: usize = 0;
    while i < FIELD_COUNT
        invariant
            i <= FIELD_COUNT,
            !blank(views(slots@)),
            first_fault(views(slots@), 0) == first_fault(views(slots@), i as int),
        decreases FIELD_COUNT - i,
    {
        match fault_in(slots, i) {
            Some(fault) => {
                return Err(fault);
            },
            None => {},
        }
        i = i + 1;
    }
    let version = GitVersion {
        major: number_in(slots, 0),
        minor: number_in(slots, 1),
        patch: number_in(slots, 2),
        pre_release_tag: text_in(slots, 3),
        pre_release_tag_with_dash: text_in(slots, 4),
        pre_release_label: text_in(slots, 5),
        pre_release_label_with_dash: text_in(slots, 6),
        pre_release_number: optional_in(slots, 7),
        weighted_pre_release_number: number_in(slots, 8),
        build_meta_data: optional_in(slots, 9),
        build_meta_data_padded: text_in(slots, 10),
        full_build_meta_data: text_in(slots, 11),
        major_minor_patch: text_in(slots, 12),
        semver: text_in(slots, 13),
        legacy_semver: text_in(slots, 14),
        legacy_semver_padded: text_in(slots, 15),
        assembly_semver: text_in(slots, 16),
        assembly_sem_file_version: text_in(slots, 17),
        informational_version: text_in(slots, 18),
        full_semver: text_in(slots, 19),
        branch_name: text_in(slots, 20),
        escaped_branch_name: text_in(slots, 21),
        sha: text_in(slots, 22),
        short_sha: text_in(slots, 23),
        nuget_version_v2: text_in(slots, 24),
        nuget_version: text_in(slots, 25),
        nuget_prerelease_tag_v2: text_in(slots, 26),
        nuget_prerelease_tag: text_in(slots, 27),
        version_source_sha: text_in(slots, 28),
        commits_since_version_source: number_in(slots, 29),
        commits_since_version_source_padded: text_in(slots, 30),
        uncommitted_changes: number_in(slots, 31),
        commit_date: text_in(slots, 32),
    };
    assert(version@ =~= values(views(slots@)));
    Ok(version)
}

/// Builds the descriptor from a parsed document.
pub fn decode_value(doc: &serde_json::Value) -> (r: Result<GitVersion, DecodeError>)
    ensures
        match decoded(content(*doc)) {
            Ok(facts) => r matches Ok(version) && version@ == facts,
            Err(fault) => r == Err::<GitVersion, DecodeError>(fault),
        },
{
    if !doc.is_object() {
        return Err(DecodeError::NotAnObject);
    }
    let slots = read_slots(doc);
    assemble(&slots)
}

/// Decodes the text of a document.
///
/// Text that is no JSON document is a syntax error. Of a document, the result
/// is what [`decoded`] says. The empty object gives the default descriptor.
pub fn decode(payload: &str) -> (r: Result<GitVersion, DecodeError>)
    ensures
        match parsed(payload@) {
            None => r matches Err(DecodeError::Syntax(_)),
            Some(doc) => match decoded(doc) {
                Ok(facts) => r matches Ok(version) && version@ == facts,
                Err(fault) => r == Err::<GitVersion, DecodeError>(fault),
            },
        },
        payload@ == empty_object_text() ==> (r matches Ok(version) && version@ == default_facts()),
{
    match parse(payload) {
        Err(error) => Err(DecodeError::Syntax(error)),
        Ok(doc) => {
            proof {
                if payload@ == empty_object_text() {
                    law_empty_object_is_default();
                }
            }
            decode_value(&doc)
        },
    }
}

/// The object without members decodes to the default descriptor.
pub proof fn law_empty_object_is_default()
    ensures
        decoded(Json::Object(Map::empty())) == Ok::<Seq<Fact>, DecodeError>(default_facts()),
{
    let slots = slots_of(Map::<Seq<char>, Json>::empty());
    assert forall|i: int| 0 <= i < FIELD_COUNT implies #[trigger] slot_at(slots, i) is Absent by {
        assert(!Map::<Seq<char>, Json>::empty().contains_key(field_at(i).key@));
    }
}

/// A member that no fact of the table is named after changes nothing.
pub proof fn law_unknown_member_is_ignored(
    members: Map<Seq<char>, Json>,
    name: Seq<char>,
    value: Json,
)
    requires
        forall|i: int| 0 <= i < FIELD_COUNT ==> (#[trigger] field_at(i)).key@ != name,
    ensures
        decoded(Json::Object(members.insert(name, value))) == decoded(Json::Object(members)),
{
    assert(slots_of(members.insert(name, value)) =~= slots_of(members)) by {
        assert forall|i: int| 0 <= i < FIELD_COUNT implies slot_of(
            member_of(members.insert(name, value), field_at(i).key@),
        ) == slot_of(member_of(members, field_at(i).key@)) by {
            assert(field_at(i).key@ != name);
        }
    }
}

/// A number that a document gives for an optional fact is present in the
/// descriptor, zero as any other; a document that has no such member leaves
/// the fact absent. The two never read the same.
pub proof fn law_explicit_number_is_present(members: Map<Seq<char>, Json>, i: int, n: u32)
    requires
        0 <= i < FIELD_COUNT,
        field_at(i).kind == Kind::Optional,
        member_of(members, field_at(i).key@) == Some(Json::Unsigned(n as u64)),
    ensures
        fault_at(slots_of(members), i) is None,
        decoded(Json::Object(members)) matches Ok(facts) ==> facts[i] == Fact::Optional(Some(n)),
        decoded(Json::Object(members.remove(field_at(i).key@))) matches Ok(facts) ==> facts[i]
            == Fact::Optional(None),
{
    let slots = slots_of(members);
    assert(slot_at(slots, i) == SlotView::Unsigned(n as u64));
    assert(!blank(slots));
    let without = slots_of(members.remove(field_at(i).key@));
    assert(slot_at(without, i) is Absent);
}

/// What a document decodes to are the facts of a descriptor: one for each row
/// of the table, each of its row's kind.
pub proof fn law_decoded_is_well_formed(doc: Json)
    ensures
        decoded(doc) matches Ok(facts) ==> well_formed(facts),
{
}

} // verus!
