//! Identities of projects, groups, presets and hosted sessions, and the row
//! identities under which assistive technology addresses them.
use vstd::prelude::*;

verus! {

/// The `uuid` crate's identifier type, carried through without looking inside.
#[verifier::external_type_specification]
#[verifier::external_body]
pub struct ExUuid(uuid::Uuid);

/// The 128-bit number that a `uuid::Uuid` holds in big-endian order.
pub uninterp spec fn uuid_value(id: uuid::Uuid) -> u128;

/// `uuid::Uuid::from_u128` stores the bytes of the number in big-endian order:
/// the identifier that comes back holds exactly that number.
pub assume_specification[ uuid::Uuid::from_u128 ](v: u128) -> (id: uuid::Uuid)
    ensures
        uuid_value(id) == v,
;

/// `uuid::Uuid::as_u128` reads the stored bytes back as a big-endian number.
pub assume_specification[ uuid::Uuid::as_u128 ](id: &uuid::Uuid) -> (v: u128)
    ensures
        v == uuid_value(*id),
;

#[derive(Clone, Copy, Debug, PartialEq, Eq, Hash, Structural)]
pub struct ProjectId {
    pub value: u128,
}

#[derive(Clone, Copy, Debug, PartialEq, Eq, Hash, Structural)]
pub struct GroupId {
    pub value: u128,
}

#[derive(Clone, Copy, Debug, PartialEq, Eq, Hash, Structural)]
pub struct PresetId {
    pub value: u128,
}

#[derive(Clone, Copy, Debug, PartialEq, Eq, Hash, Structural)]
pub struct HostedSessionId {
    pub value: u128,
}

impl ProjectId {
    pub fn from_uuid(id: uuid::Uuid) -> (r: Self)
        ensures
            r.value == uuid_value(id),
    {
        ProjectId { value: id.as_u128() }
    }

    pub fn as_uuid(&self) -> (r: uuid::Uuid)
        ensures
            uuid_value(r) == self.value,
    {
        uuid::Uuid::from_u128(self.value)
    }
}

impl GroupId {
    pub fn from_uuid(id: uuid::Uuid) -> (r: Self)
        ensures
            r.value == uuid_value(id),
    {
        GroupId { value: id.as_u128() }
    }

    pub fn as_uuid(&self) -> (r: uuid::Uuid)
        ensures
            uuid_value(r) == self.value,
    {
        uuid::Uuid::from_u128(self.value)
    }
}

impl PresetId {
    pub fn from_uuid(id: uuid::Uuid) -> (r: Self)
        ensures
            r.value == uuid_value(id),
    {
        PresetId { value: id.as_u128() }
    }

    pub fn as_uuid(&self) -> (r: uuid::Uuid)
        ensures
            uuid_value(r) == self.value,
    {
        uuid::Uuid::from_u128(self.value)
    }
}

impl HostedSessionId {
    pub fn from_uuid(id: uuid::Uuid) -> (r: Self)
        ensures
            r.value == uuid_value(id),
    {
        HostedSessionId { value: id.as_u128() }
    }

    pub fn as_uuid(&self) -> (r: uuid::Uuid)
        ensures
            uuid_value(r) == self.value,
    {
        uuid::Uuid::from_u128(self.value)
    }
}

#[derive(Clone, Copy, Debug, PartialEq, Eq, Structural)]
pub enum AccessibleRowKind {
    Project,
    Group,
    Session,
}

/// A row of the project and session collection as assistive technology names it.
#[derive(Clone, Copy, Debug, PartialEq, Eq, Structural)]
pub struct AccessibleRowId {
    pub kind: AccessibleRowKind,
    pub value: u128,
}

pub open spec fn project_row(id: ProjectId) -> AccessibleRowId {
    AccessibleRowId { kind: AccessibleRowKind::Project, value: id.value }
}

pub open spec fn group_row(id: GroupId) -> AccessibleRowId {
    AccessibleRowId { kind: AccessibleRowKind::Group, value: id.value }
}

pub open spec fn session_row(id: HostedSessionId) -> AccessibleRowId {
    AccessibleRowId { kind: AccessibleRowKind::Session, value: id.value }
}

pub open spec fn row_project(row: AccessibleRowId) -> Option<ProjectId> {
    if row.kind == AccessibleRowKind::Project {
        Some(ProjectId { value: row.value })
    } else {
        None
    }
}

pub open spec fn row_group(row: AccessibleRowId) -> Option<GroupId> {
    if row.kind == AccessibleRowKind::Group {
        Some(GroupId { value: row.value })
    } else {
        None
    }
}

pub open spec fn row_session(row: AccessibleRowId) -> Option<HostedSessionId> {
    if row.kind == AccessibleRowKind::Session {
        Some(HostedSessionId { value: row.value })
    } else {
        None
    }
}

pub fn accessible_project_id(id: ProjectId) -> (row: AccessibleRowId)
    ensures
        row == project_row(id),
{
    AccessibleRowId { kind: AccessibleRowKind::Project, value: id.as_uuid().as_u128() }
}

pub fn accessible_group_id(id: GroupId) -> (row: AccessibleRowId)
    ensures
        row == group_row(id),
{
    AccessibleRowId { kind: AccessibleRowKind::Group, value: id.as_uuid().as_u128() }
}

pub fn accessible_session_id(id: HostedSessionId) -> (row: AccessibleRowId)
    ensures
        row == session_row(id),
{
    AccessibleRowId { kind: AccessibleRowKind::Session, value: id.as_uuid().as_u128() }
}

/// The project that a row names, if it is a project row.
pub fn accessible_project_row_id(row: AccessibleRowId) -> (id: Option<ProjectId>)
    ensures
        id == row_project(row),
{
    if row.kind == AccessibleRowKind::Project {
        Some(ProjectId::from_uuid(uuid::Uuid::from_u128(row.value)))
    } else {
        None
    }
}

/// The group that a row names, if it is a group row.
pub fn accessible_group_row_id(row: AccessibleRowId) -> (id: Option<GroupId>)
    ensures
        id == row_group(row),
{
    if row.kind == AccessibleRowKind::Group {
        Some(GroupId::from_uuid(uuid::Uuid::from_u128(row.value)))
    } else {
        None
    }
}

/// The session that a row names, if it is a session row.
pub fn accessible_session_row_id(row: AccessibleRowId) -> (id: Option<HostedSessionId>)
    ensures
        id == row_session(row),
{
    if row.kind == AccessibleRowKind::Session {
        Some(HostedSessionId::from_uuid(uuid::Uuid::from_u128(row.value)))
    } else {
        None
    }
}

/// A row identity leads back to the entity it was made from and to no other
/// kind of entity.
pub proof fn law_row_identity_round_trips(p: ProjectId, g: GroupId, s: HostedSessionId)
    ensures
        row_project(project_row(p)) == Some(p),
        row_group(group_row(g)) == Some(g),
        row_session(session_row(s)) == Some(s),
        row_group(project_row(p)) is None && row_session(project_row(p)) is None,
        row_project(group_row(g)) is None && row_session(group_row(g)) is None,
        row_project(session_row(s)) is None && row_group(session_row(s)) is None,
{
}

/// The 64-bit key under which an element of the interface is remembered: the
/// two halves of the identity, combined by exclusive or.
pub open spec fn folded_key(value: u128) -> u64 {
    ((value % 0x1_0000_0000_0000_0000) as u64) ^ ((value / 0x1_0000_0000_0000_0000) as u64)
}

fn fold_key(value: u128) -> (key: u64)
    ensures
        key == folded_key(value),
{
    let low: u64 = (value % 0x1_0000_0000_0000_0000) as u64;
    let high: u64 = (value / 0x1_0000_0000_0000_0000) as u64;
    low ^ high
}

pub fn project_element_key(id: ProjectId) -> (key: u64)
    ensures
        key == folded_key(id.value),
{
    fold_key(id.as_uuid().as_u128())
}

pub fn preset_element_key(id: PresetId) -> (key: u64)
    ensures
        key == folded_key(id.value),
{
    fold_key(id.as_uuid().as_u128())
}

pub fn group_key(id: GroupId) -> (key: u64)
    ensures
        key == folded_key(id.value),
{
    fold_key(id.as_uuid().as_u128())
}

pub fn session_key(id: HostedSessionId) -> (key: u64)
    ensures
        key == folded_key(id.value),
{
    fold_key(id.as_uuid().as_u128())
}

/// A key folds an identity's two halves into one another: where one half is
/// nothing, the key is the other.
pub proof fn law_keys_fold_both_halves(low: u64, high: u64)
    ensures
        folded_key(low as u128) == low,
        folded_key((high as u128 * 0x1_0000_0000_0000_0000u128) as u128) == high,
        folded_key((high as u128 * 0x1_0000_0000_0000_0000u128 + low as u128) as u128) == low
            ^ high,
{
    let whole: u128 = 0x1_0000_0000_0000_0000u128;
    let a = low as int;
    let b = high as int;
    assert((b * 0x1_0000_0000_0000_0000 + a) % 0x1_0000_0000_0000_0000 == a) by (nonlinear_arith)
        requires
            0 <= a < 0x1_0000_0000_0000_0000,
    ;
    assert((b * 0x1_0000_0000_0000_0000 + a) / 0x1_0000_0000_0000_0000 == b) by (nonlinear_arith)
        requires
            0 <= a < 0x1_0000_0000_0000_0000,
    ;
    assert(b * 0x1_0000_0000_0000_0000 + a <= u128::MAX) by (nonlinear_arith)
        requires
            0 <= a < 0x1_0000_0000_0000_0000,
            0 <= b < 0x1_0000_0000_0000_0000,
    ;
    assert(low ^ 0u64 == low) by (bit_vector);
    assert(0u64 ^ high == high) by (bit_vector);
}

/// A row's identity keeps the identity it stands for, and only a row of its kind
/// gives it back.
pub proof fn law_rows_stand_for_one_kind(row: AccessibleRowId)
    ensures
        row_project(row) is Some <==> row.kind is Project,
        row_group(row) is Some <==> row.kind is Group,
        row_session(row) is Some <==> row.kind is Session,
        row_project(row) matches Some(id) ==> id.value == row.value,
        row_group(row) matches Some(id) ==> id.value == row.value,
        row_session(row) matches Some(id) ==> id.value == row.value,
{
}

} // verus!
