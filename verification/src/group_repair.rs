//! Mending references to groups that no longer exist: in the saved records, then
//! in the session store, and only then in what is reported.
use vstd::prelude::*;

use crate::domain::StoreError;
use crate::ids::{HostedSessionId, ProjectId};
use crate::lists;
use crate::messages::{Atom, MessageId, Text};
use crate::projects::{Group, ProjectLibraryState, ProjectSnapshot};
use crate::saved_state;
use crate::saved_state::{
    GroupMembership, SavedAppAttachedSession, SavedSessionPlacement, SavedState,
};
use crate::session_library::{SessionLibraryState, SessionSnapshot};
use crate::session_sidebar;
use crate::session_sidebar::{handle_session_library_error, GroupFollowUp};
use crate::ui;
use crate::ui::Notices;

verus! {

/// What came of repairing group references: the sessions that were moved, and
/// the projects whose placements are to be handed to the session store.
#[derive(Debug)]
pub struct GroupRepair {
    pub repaired: Vec<HostedSessionId>,
    pub projects: Vec<ProjectId>,
}

pub open spec fn membership(group: Group) -> GroupMembership {
    GroupMembership { group_id: group.id, project_id: group.project_id }
}

pub open spec fn memberships(groups: Seq<Group>) -> Seq<GroupMembership> {
    Seq::new(groups.len(), |i: int| membership(groups[i]))
}

/// The projects of the named records, each once, in order of appearance.
pub open spec fn projects_of(
    records: Seq<SavedAppAttachedSession>,
    ids: Seq<HostedSessionId>,
) -> Seq<ProjectId>
    decreases ids.len(),
{
    if ids.len() == 0 {
        Seq::empty()
    } else {
        let before = projects_of(records, ids.drop_last());
        match lists::first_where(records, saved_state::is_record(ids.last())) {
            Some(record) => if before.contains(record.origin.project_id) {
                before
            } else {
                before.push(record.origin.project_id)
            },
            None => before,
        }
    }
}

fn names_project(list: &Vec<ProjectId>, id: ProjectId) -> (r: bool)
    ensures
        r == list@.contains(id),
{
    let mut i: usize = 0;
    while i < list.len()
        invariant
            i <= list@.len(),
            forall|k: int| 0 <= k < i ==> list@[k] != id,
        decreases list@.len() - i,
    {
        if list[i] == id {
            assert(list@[i as int] == id);
            return true;
        }
        i += 1;
    }
    false
}

/// The sessions whose group is not among the groups of their project.
pub open spec fn lost_sessions(
    records: Seq<SavedAppAttachedSession>,
    groups: Seq<Group>,
) -> Seq<HostedSessionId> {
    lists::kept(records, saved_state::dangling(memberships(groups))).map_values(
        |record: SavedAppAttachedSession| record.id,
    )
}

/// The records with those sessions moved to the root of their project.
pub open spec fn mended(
    records: Seq<SavedAppAttachedSession>,
    groups: Seq<Group>,
) -> Seq<SavedAppAttachedSession> {
    saved_state::reseated(records, 0, saved_state::dangling(memberships(groups)), None)
}

/// Moves sessions whose group no longer exists to their project's root.
pub fn mend_group_references(saved: &mut SavedState, projects: &ProjectLibraryState) -> (r:
    GroupRepair)
    ensures
        ({
            let before = old(saved).app_attached_sessions@;
            let after = final(saved).app_attached_sessions@;
            &&& after == mended(before, projects.groups())
            &&& r.repaired@ == lost_sessions(before, projects.groups())
            &&& r.projects@ == projects_of(after, r.repaired@)
        }),
{
    let mut valid: Vec<GroupMembership> = Vec::new();
    match &projects.snapshot {
        None => {},
        Some(snapshot) => {
            let mut i: usize = 0;
            while i < snapshot.groups.len()
                invariant
                    i <= snapshot.groups@.len(),
                    valid@ =~= memberships(snapshot.groups@).take(i as int),
                decreases snapshot.groups@.len() - i,
            {
                let group = &snapshot.groups[i];
                valid.push(GroupMembership { group_id: group.id, project_id: group.project_id });
                i += 1;
            }
        },
    }
    assert(valid@ =~= memberships(projects.groups()));
    let repaired: Vec<HostedSessionId> = saved.repair_app_attached_group_references(&valid);
    let ghost records = saved.app_attached_sessions@;
    let mut found: Vec<ProjectId> = Vec::new();
    let mut k: usize = 0;
    assert(repaired@.take(0) =~= Seq::empty());
    while k < repaired.len()
        invariant
            k <= repaired@.len(),
            saved.app_attached_sessions@ == records,
            found@ == projects_of(records, repaired@.take(k as int)),
        decreases repaired@.len() - k,
    {
        assert(repaired@.take(k + 1).drop_last() =~= repaired@.take(k as int));
        match saved.record(repaired[k]) {
            Some(record) => {
                if !names_project(&found, record.origin.project_id) {
                    found.push(record.origin.project_id);
                }
            },
            None => {},
        }
        k += 1;
    }
    assert(repaired@.take(repaired@.len() as int) =~= repaired@);
    GroupRepair { repaired, projects: found }
}

/// The session store's answers to a rearrangement: whether it took place, what
/// the store holds then, and what a second reading gave where one was called
/// for.
#[derive(Debug)]
pub struct PlacementReply {
    pub outcome: Result<(), StoreError>,
    pub loaded: Result<SessionSnapshot, StoreError>,
    pub reread: Result<SessionSnapshot, StoreError>,
}

/// How an answer is taken over: `taken` says whether the rearrangement took
/// effect.
pub open spec fn reply_taken(
    library: SessionLibraryState,
    records: Seq<SavedAppAttachedSession>,
    reply: PlacementReply,
    library_after: SessionLibraryState,
    records_after: Seq<SavedAppAttachedSession>,
    taken: bool,
) -> bool {
    session_sidebar::placements_taken(
        library,
        library_after,
        records,
        records_after,
        reply.outcome,
        reply.loaded,
        reply.reread,
        taken,
    )
}

/// `place` was handed the placements of one project, as the records hold them,
/// and answered.
pub open spec fn placed<P: Fn(&SessionLibraryState, &Vec<SavedSessionPlacement>) -> PlacementReply>(
    place: P,
    library: SessionLibraryState,
    records: Seq<SavedAppAttachedSession>,
    project_id: ProjectId,
    reply: PlacementReply,
) -> bool {
    exists|placements: Vec<SavedSessionPlacement>| #[trigger]
        place.ensures((&library, &placements), reply) && placements@ == saved_state::placements_of(
            records,
            project_id,
        )
}

/// The placements of one project after another were handed to `place`, until
/// one of them did not take effect; `all` says that every one did.
pub open spec fn placed_all<
    P: Fn(&SessionLibraryState, &Vec<SavedSessionPlacement>) -> PlacementReply,
>(
    place: P,
    projects: Seq<ProjectId>,
    library: SessionLibraryState,
    records: Seq<SavedAppAttachedSession>,
    library_after: SessionLibraryState,
    records_after: Seq<SavedAppAttachedSession>,
    all: bool,
) -> bool
    decreases projects.len(),
{
    if projects.len() == 0 {
        all && library_after == library && records_after == records
    } else {
        exists|
            reply: PlacementReply,
            between: SessionLibraryState,
            between_records: Seq<SavedAppAttachedSession>,
            taken: bool,
        |
            #[trigger] reply_taken(library, records, reply, between, between_records, taken)
                && placed(place, library, records, projects[0], reply) && if taken {
                placed_all(
                    place,
                    projects.drop_first(),
                    between,
                    between_records,
                    library_after,
                    records_after,
                    all,
                )
            } else {
                !all && library_after == between && records_after == between_records
            }
    }
}

/// `place` accepts what it is handed: the placements of the first project, and
/// those of each other one once the one before it took effect. Nothing else is
/// asked of it.
pub open spec fn accepts_all<
    P: Fn(&SessionLibraryState, &Vec<SavedSessionPlacement>) -> PlacementReply,
>(
    place: P,
    projects: Seq<ProjectId>,
    library: SessionLibraryState,
    records: Seq<SavedAppAttachedSession>,
) -> bool
    decreases projects.len(),
{
    if projects.len() == 0 {
        true
    } else {
        &&& forall|placements: Vec<SavedSessionPlacement>|
            placements@ == saved_state::placements_of(records, projects[0])
                ==> #[trigger] place.requires((&library, &placements))
        &&& forall|
            reply: PlacementReply,
            between: SessionLibraryState,
            between_records: Seq<SavedAppAttachedSession>,
        |
            #[trigger] reply_taken(library, records, reply, between, between_records, true)
                && placed(place, library, records, projects[0], reply) ==> accepts_all(
                place,
                projects.drop_first(),
                between,
                between_records,
            )
    }
}

/// Hands the placements of the projects from `from` on to the session store,
/// until one does not take effect.
fn place_projects<P: Fn(&SessionLibraryState, &Vec<SavedSessionPlacement>) -> PlacementReply>(
    projects: &Vec<ProjectId>,
    from: usize,
    library: &mut SessionLibraryState,
    saved: &mut SavedState,
    place: &P,
    notices: &mut Notices,
) -> (all: bool)
    requires
        from <= projects@.len(),
        accepts_all(
            *place,
            projects@.skip(from as int),
            *old(library),
            old(saved).app_attached_sessions@,
        ),
    ensures
        placed_all(
            *place,
            projects@.skip(from as int),
            *old(library),
            old(saved).app_attached_sessions@,
            *final(library),
            final(saved).app_attached_sessions@,
            all,
        ),
        *final(notices) == if all {
            *old(notices)
        } else {
            session_sidebar::operation_failed(*old(notices))
        },
    decreases projects@.len() - from,
{
    if from >= projects.len() {
        return true;
    }
    let ghost before = *library;
    let ghost records = saved.app_attached_sessions@;
    let ghost rest = projects@.skip(from as int);
    assert(rest[0] == projects@[from as int]);
    assert(rest.drop_first() =~= projects@.skip(from + 1));
    let placements: Vec<SavedSessionPlacement> = saved.app_attached_session_placements(
        projects[from],
    );
    let reply: PlacementReply = place(&*library, &placements);
    let ghost answer = reply;
    assert(placed(*place, before, records, rest[0], answer));
    match library.apply_placements(saved, reply.outcome, reply.loaded) {
        Ok(()) => {
            assert(reply_taken(
                before,
                records,
                answer,
                *library,
                saved.app_attached_sessions@,
                true,
            ));
            place_projects(projects, from + 1, library, saved, place, notices)
        },
        Err(error) => {
            handle_session_library_error(library, error, reply.reread, notices);
            assert(reply_taken(
                before,
                records,
                answer,
                *library,
                saved.app_attached_sessions@,
                false,
            ));
            false
        },
    }
}

/// What is reported of a repair that moved some sessions: how many, or that the
/// session store refused.
pub open spec fn repair_reported(before: Notices, moved: nat, all: bool) -> Notices {
    if !all {
        session_sidebar::operation_failed(before)
    } else if moved == 0 {
        before
    } else {
        ui::informed(
            before,
            Text::Filled(MessageId::GroupRepairStatus, Atom::Number(moved as u64)),
        )
    }
}

/// The records `saved` are what a repair that moved sessions, and whose
/// placements all took effect, leaves behind: these are saved.
pub open spec fn repaired_records<
    P: Fn(&SessionLibraryState, &Vec<SavedSessionPlacement>) -> PlacementReply,
>(
    place: P,
    groups: Seq<Group>,
    library: SessionLibraryState,
    records: Seq<SavedAppAttachedSession>,
    saved: Seq<SavedAppAttachedSession>,
) -> bool {
    let lost = lost_sessions(records, groups);
    lost.len() > 0 && exists|library_after: SessionLibraryState| #[trigger]
        placed_all(
            place,
            projects_of(mended(records, groups), lost),
            library,
            mended(records, groups),
            library_after,
            saved,
            true,
        )
}

/// What a repair asks of the functions handed to it: `place` accepts the
/// placements of the projects concerned, and `persist` what is to be saved.
pub open spec fn repairable<
    P: Fn(&SessionLibraryState, &Vec<SavedSessionPlacement>) -> PlacementReply,
    S: Fn(&SavedState),
>(
    place: P,
    persist: S,
    groups: Seq<Group>,
    library: SessionLibraryState,
    records: Seq<SavedAppAttachedSession>,
) -> bool {
    let mended = mended(records, groups);
    &&& accepts_all(place, projects_of(mended, lost_sessions(records, groups)), library, mended)
    &&& forall|state: &SavedState|
        repaired_records(place, groups, library, records, state.app_attached_sessions@)
            ==> #[trigger] persist.requires((state,))
}

/// A repair took place: the records were mended, the placements of every project
/// concerned handed to the session store until it refused, and, where it took
/// them all and some session was moved, the records saved.
pub open spec fn references_repaired<
    P: Fn(&SessionLibraryState, &Vec<SavedSessionPlacement>) -> PlacementReply,
    S: Fn(&SavedState),
>(
    place: P,
    persist: S,
    groups: Seq<Group>,
    library: SessionLibraryState,
    records: Seq<SavedAppAttachedSession>,
    library_after: SessionLibraryState,
    records_after: Seq<SavedAppAttachedSession>,
    all: bool,
) -> bool {
    let lost = lost_sessions(records, groups);
    let mended = mended(records, groups);
    &&& placed_all(
        place,
        projects_of(mended, lost),
        library,
        mended,
        library_after,
        records_after,
        all,
    )
    &&& all && lost.len() > 0 ==> exists|state: &SavedState| #[trigger]
        persist.ensures((state,), ()) && state.app_attached_sessions@ == records_after
}

/// Moves sessions whose group no longer exists to their project's root, in the
/// saved records and in the session store, and reports it. Says whether the
/// session store took every change.
pub fn repair_session_group_references<
    P: Fn(&SessionLibraryState, &Vec<SavedSessionPlacement>) -> PlacementReply,
    S: Fn(&SavedState),
>(
    projects: &ProjectLibraryState,
    library: &mut SessionLibraryState,
    saved: &mut SavedState,
    place: &P,
    persist: &S,
    notices: &mut Notices,
) -> (all: bool)
    requires
        repairable(
            *place,
            *persist,
            projects.groups(),
            *old(library),
            old(saved).app_attached_sessions@,
        ),
    ensures
        references_repaired(
            *place,
            *persist,
            projects.groups(),
            *old(library),
            old(saved).app_attached_sessions@,
            *final(library),
            final(saved).app_attached_sessions@,
            all,
        ),
        *final(notices) == repair_reported(
            *old(notices),
            lost_sessions(old(saved).app_attached_sessions@, projects.groups()).len(),
            all,
        ),
{
    let ghost records = saved.app_attached_sessions@;
    let ghost before = *library;
    let repair: GroupRepair = mend_group_references(saved, projects);
    let ghost mended = saved.app_attached_sessions@;
    assert(repair.projects@.skip(0) =~= repair.projects@);
    if !place_projects(&repair.projects, 0, library, saved, place, notices) {
        return false;
    }
    if repair.repaired.len() > 0 {
        assert(repaired_records(
            *place,
            projects.groups(),
            before,
            records,
            saved.app_attached_sessions@,
        ));
        persist(&*saved);
        notices.inform(
            Text::Filled(
                MessageId::GroupRepairStatus,
                Atom::Number(repair.repaired.len() as u64),
            ),
        );
    }
    true
}

/// Finishes a change of a group: the project store was read again, references to
/// groups are repaired, and only then is the change reported.
pub fn finish_group_mutation<
    P: Fn(&SessionLibraryState, &Vec<SavedSessionPlacement>) -> PlacementReply,
    S: Fn(&SavedState),
>(
    projects: &mut ProjectLibraryState,
    library: &mut SessionLibraryState,
    saved: &mut SavedState,
    loaded: Result<ProjectSnapshot, StoreError>,
    place: &P,
    persist: &S,
    notices: &mut Notices,
)
    requires
        repairable(
            *place,
            *persist,
            old(projects).reloaded(loaded).groups(),
            *old(library),
            old(saved).app_attached_sessions@,
        ),
    ensures
        *final(projects) == old(projects).reloaded(loaded),
        exists|all: bool| #[trigger]
            references_repaired(
                *place,
                *persist,
                final(projects).groups(),
                *old(library),
                old(saved).app_attached_sessions@,
                *final(library),
                final(saved).app_attached_sessions@,
                all,
            ),
        *final(notices) == session_sidebar::organization_updated(),
{
    projects.reload(loaded);
    let _ = repair_session_group_references(&*projects, library, saved, place, persist, notices);
    notices.succeed(Text::Message(MessageId::GroupOrganizationUpdated));
}

/// Does what follows once the project store has answered to a change of a group.
pub fn follow_group_change<
    P: Fn(&SessionLibraryState, &Vec<SavedSessionPlacement>) -> PlacementReply,
    S: Fn(&SavedState),
>(
    follow_up: GroupFollowUp,
    projects: &mut ProjectLibraryState,
    library: &mut SessionLibraryState,
    saved: &mut SavedState,
    loaded: Result<ProjectSnapshot, StoreError>,
    place: &P,
    persist: &S,
    notices: &mut Notices,
)
    requires
        follow_up !is Nothing ==> repairable(
            *place,
            *persist,
            old(projects).reloaded(loaded).groups(),
            *old(library),
            old(saved).app_attached_sessions@,
        ),
    ensures
        follow_up is Nothing ==> {
            &&& *final(projects) == *old(projects)
            &&& *final(library) == *old(library)
            &&& final(saved).app_attached_sessions@ == old(saved).app_attached_sessions@
            &&& *final(notices) == *old(notices)
        },
        follow_up !is Nothing ==> {
            &&& *final(projects) == old(projects).reloaded(loaded)
            &&& exists|all: bool|
                {
                    &&& #[trigger] references_repaired(
                        *place,
                        *persist,
                        final(projects).groups(),
                        *old(library),
                        old(saved).app_attached_sessions@,
                        *final(library),
                        final(saved).app_attached_sessions@,
                        all,
                    )
                    &&& *final(notices) == if follow_up is Complete {
                        session_sidebar::organization_updated()
                    } else {
                        repair_reported(
                            *old(notices),
                            lost_sessions(
                                old(saved).app_attached_sessions@,
                                final(projects).groups(),
                            ).len(),
                            all,
                        )
                    }
                }
        },
{
    match follow_up {
        GroupFollowUp::Nothing => {},
        GroupFollowUp::Refresh => {
            projects.reload(loaded);
            let _ = repair_session_group_references(
                &*projects,
                library,
                saved,
                place,
                persist,
                notices,
            );
        },
        GroupFollowUp::Complete => {
            finish_group_mutation(projects, library, saved, loaded, place, persist, notices);
        },
    }
}

/// Mended records name no group that their project does not have: mending them
/// again finds nothing to move.
pub proof fn law_mended_records_have_no_lost_sessions(
    records: Seq<SavedAppAttachedSession>,
    groups: Seq<Group>,
)
    ensures
        lost_sessions(mended(records, groups), groups).len() == 0,
{
    let valid = memberships(groups);
    let mended = mended(records, groups);
    saved_state::law_repair_keeps_sessions_and_mends_groups(records, valid);
    lemma_none_kept(mended, saved_state::dangling(valid));
}

proof fn lemma_none_kept(records: Seq<SavedAppAttachedSession>, pick: spec_fn(
    SavedAppAttachedSession,
) -> bool)
    requires
        forall|k: int| 0 <= k < records.len() ==> !pick(#[trigger] records[k]),
    ensures
        lists::kept(records, pick).len() == 0,
    decreases records.len(),
{
    if records.len() > 0 {
        lemma_none_kept(records.drop_last(), pick);
        assert(!pick(records[records.len() - 1]));
    }
}

/// A session is lost exactly where it names a group that its project does not
/// have.
pub proof fn law_sessions_of_missing_groups_are_lost(
    records: Seq<SavedAppAttachedSession>,
    groups: Seq<Group>,
    k: int,
)
    requires
        0 <= k < records.len(),
    ensures
        records[k].group_id is None ==> !saved_state::dangling(memberships(groups))(records[k]),
        records[k].group_id matches Some(id) ==> (saved_state::dangling(memberships(groups))(
            records[k],
        ) <==> !exists|g: int|
            0 <= g < groups.len() && (#[trigger] groups[g]).id == id && groups[g].project_id
                == records[k].origin.project_id),
{
    if let Some(id) = records[k].group_id {
        let wanted = GroupMembership {
            group_id: id,
            project_id: records[k].origin.project_id,
        };
        let valid = memberships(groups);
        if valid.contains(wanted) {
            let g = choose|g: int| 0 <= g < valid.len() && valid[g] == wanted;
            assert(groups[g].id == id);
        }
        if exists|g: int|
            0 <= g < groups.len() && (#[trigger] groups[g]).id == id && groups[g].project_id
                == records[k].origin.project_id {
            let g = choose|g: int|
                0 <= g < groups.len() && (#[trigger] groups[g]).id == id && groups[g].project_id
                    == records[k].origin.project_id;
            assert(valid[g] == wanted);
        }
    }
}

/// Mending puts a lost session at the top of its project and leaves every other
/// record as it is.
pub proof fn law_lost_sessions_go_to_the_top(
    records: Seq<SavedAppAttachedSession>,
    groups: Seq<Group>,
    k: int,
)
    requires
        0 <= k < records.len(),
    ensures
        mended(records, groups).len() == records.len(),
        mended(records, groups)[k].id == records[k].id,
        saved_state::dangling(memberships(groups))(records[k]) ==> mended(records, groups)[k].group_id
            is None,
        !saved_state::dangling(memberships(groups))(records[k]) ==> mended(records, groups)[k]
            == records[k],
{
    saved_state::law_repair_keeps_sessions_and_mends_groups(records, memberships(groups));
}

/// The projects of sessions are those that their records name, each once.
pub proof fn law_projects_are_named_once(
    records: Seq<SavedAppAttachedSession>,
    ids: Seq<HostedSessionId>,
)
    ensures
        projects_of(records, ids).no_duplicates(),
        forall|i: int|
            #![trigger ids[i]]
            0 <= i < ids.len() ==> match lists::first_where(
                records,
                saved_state::is_record(ids[i]),
            ) {
                Some(record) => projects_of(records, ids).contains(record.origin.project_id),
                None => true,
            },
    decreases ids.len(),
{
    if ids.len() > 0 {
        let rest = ids.drop_last();
        law_projects_are_named_once(records, rest);
        let before = projects_of(records, rest);
        let all = projects_of(records, ids);
        assert forall|x: ProjectId| #[trigger] before.contains(x) implies all.contains(x) by {
            let j = choose|j: int| 0 <= j < before.len() && before[j] == x;
            assert(all[j] == x);
        }
        assert forall|i: int|
            #![trigger ids[i]]
            0 <= i < ids.len() implies match lists::first_where(
            records,
            saved_state::is_record(ids[i]),
        ) {
            Some(record) => all.contains(record.origin.project_id),
            None => true,
        } by {
            if i < rest.len() {
                assert(rest[i] == ids[i]);
            } else if let Some(record) = lists::first_where(
                records,
                saved_state::is_record(ids[i]),
            ) {
                if !before.contains(record.origin.project_id) {
                    assert(all[before.len() as int] == record.origin.project_id);
                }
            }
        }
    }
}

/// A repair is told by the number of sessions that it moved; one that moved none
/// says nothing, and one that the store refused is told as a failure.
pub proof fn law_repairs_are_told_by_what_they_moved(before: Notices, moved: nat, all: bool)
    ensures
        all && moved == 0 ==> repair_reported(before, moved, all) == before,
        all && moved > 0 ==> repair_reported(before, moved, all) == ui::informed(
            before,
            Text::Filled(MessageId::GroupRepairStatus, Atom::Number(moved as u64)),
        ),
        !all ==> repair_reported(before, moved, all) == ui::failed(
            before,
            Text::Message(MessageId::SessionLibraryOperationFailed),
        ),
{
}

} // verus!
