//! The decisions of a capture replay: which recipe an entry gets, and whether
//! it was consumed exactly.
use vstd::prelude::*;
use vstd::string::StringSliceAdditionalSpecFns;
use crate::auth::{lu_at, lu_fits, LuMessage, LOGIN_REQUEST_SIZE};
use crate::catalog::Catalog;
use crate::classify::{category_of, classify, Category};
use crate::general::{HANDSHAKE_SIZE, MESSAGE_HEADER_SIZE};
use crate::recipe::{recipe_of, DecodeContext, LeafDecoder};
use crate::session::SessionCache;
use crate::wire::{le_u16, read_u8};

verus! {

/// The first byte of every service message: the transport's user-message id.
pub const USER_MESSAGE_ID: u8 = 0x53;

/// Why a replay stops.
#[derive(Clone, Copy, Debug, PartialEq, Eq, Structural)]
pub enum ReplayError {
    /// The catalog lists a kind that no decode table knows.
    UnknownComponentKind { kind: u32, lot: u32 },
    /// The payload ran out, or held a value that its schema does not allow.
    Malformed,
    /// Decoding finished with bytes of the declared size left unread.
    IncompleteConsumption { declared: usize, remaining: usize },
}

/// What a replay does with an entry, chosen by its category.
#[derive(Clone, Copy, Debug, PartialEq, Eq, Structural)]
pub enum EntryAction {
    /// Leave the entry alone: no byte of its payload is read.
    Skip,
    /// Decode it as a message to the auth server.
    DecodeAuthServer,
    /// Decode it with the fixed schema of a world message.
    DecodeWorld,
    /// Decode a construction through the component pipeline.
    Construct,
    /// Decode an update with the recipe cached at construction.
    Update,
}

/// The action for each category.
pub open spec fn action_of(category: Category) -> EntryAction {
    match category {
        Category::Ignored => EntryAction::Skip,
        Category::SystemHandshake => EntryAction::DecodeAuthServer,
        Category::WorldSystem => EntryAction::DecodeWorld,
        Category::WorldClient => EntryAction::DecodeWorld,
        Category::ObjectConstruction => EntryAction::Construct,
        Category::ObjectUpdate => EntryAction::Update,
    }
}

/// Whether the full-consumption check applies to an entry: always, but for a
/// skipped entry, which is never decoded, and an update, whose plan decides.
pub open spec fn consumption_checked(action: EntryAction, plan_check: bool) -> bool {
    match action {
        EntryAction::Skip => false,
        EntryAction::Update => plan_check,
        _ => true,
    }
}

/// The action for a capture entry with tag `tag`.
pub fn entry_action(tag: &str) -> (r: EntryAction)
    ensures
        r == action_of(category_of(tag.spec_bytes())),
{
    match classify(tag) {
        Category::Ignored => EntryAction::Skip,
        Category::SystemHandshake => EntryAction::DecodeAuthServer,
        Category::WorldSystem => EntryAction::DecodeWorld,
        Category::WorldClient => EntryAction::DecodeWorld,
        Category::ObjectConstruction => EntryAction::Construct,
        Category::ObjectUpdate => EntryAction::Update,
    }
}

/// How to decode an update entry.
pub struct UpdatePlan {
    pub steps: Vec<LeafDecoder>,
    pub check_consumption: bool,
}

/// The steps and the consumption check of an update of `handle`: the cached
/// recipe with the check for a constructed handle; for any other handle no
/// step and no check, since its construction lies outside the capture.
pub open spec fn update_plan_of(
    session: Map<u16, (u32, Seq<LeafDecoder>)>,
    handle: u16,
) -> (Seq<LeafDecoder>, bool) {
    if session.contains_key(handle) {
        (session[handle].1, true)
    } else {
        (seq![], false)
    }
}

/// The outcome of an entry whose decoding left `remaining` of `declared`
/// bytes unread.
pub open spec fn entry_outcome(check: bool, declared: usize, remaining: usize) -> Result<(), ReplayError> {
    if check && remaining != 0 {
        Err(ReplayError::IncompleteConsumption { declared, remaining })
    } else {
        Ok(())
    }
}

/// The replay state of one capture unit, and the count of entries decoded
/// over the whole run.
pub struct ReplayUnit {
    session: SessionCache,
    packet_count: usize,
}

impl ReplayUnit {
    pub closed spec fn session_view(&self) -> Map<u16, (u32, Seq<LeafDecoder>)> {
        self.session@
    }

    pub closed spec fn count(&self) -> nat {
        self.packet_count as nat
    }

    /// A run that has decoded nothing, at the start of a capture unit.
    pub fn new() -> (r: ReplayUnit)
        ensures
            r.session_view() == Map::<u16, (u32, Seq<LeafDecoder>)>::empty(),
            r.count() == 0,
    {
        ReplayUnit { session: SessionCache::new(), packet_count: 0 }
    }

    /// The number of entries decoded so far.
    pub fn packet_count(&self) -> (r: usize)
        ensures
            r as nat == self.count(),
    {
        self.packet_count
    }

    /// Starts the next independent capture unit: no handle of an earlier unit
    /// stays known; the count carries on.
    pub fn begin_unit(&mut self)
        ensures
            final(self).session_view() == Map::<u16, (u32, Seq<LeafDecoder>)>::empty(),
            final(self).count() == old(self).count(),
    {
        self.session.reset();
    }

    /// Handles the construction of `handle` as template `lot`, whose kinds the
    /// catalog cache holds: the construction recipe, with the handle bound to
    /// its update recipe; or the unknown kind and its template.
    pub fn construct(&mut self, catalog: &Catalog, handle: u16, lot: u32) -> (r: Result<
        Vec<LeafDecoder>,
        ReplayError,
    >)
        requires
            catalog@.contains_key(lot),
        ensures
            final(self).count() == old(self).count(),
            match (recipe_of(catalog@[lot], DecodeContext::Construction), recipe_of(catalog@[lot], DecodeContext::Update)) {
                (Ok(c), Ok(u)) => r is Ok && r->Ok_0@ == c && final(self).session_view() == old(
                    self,
                ).session_view().insert(handle, (lot, u)),
                (Err(k), _) => r == Err::<Vec<LeafDecoder>, ReplayError>(
                    ReplayError::UnknownComponentKind { kind: k, lot },
                ) && final(self).session_view() == old(self).session_view(),
                (Ok(_), Err(k)) => r == Err::<Vec<LeafDecoder>, ReplayError>(
                    ReplayError::UnknownComponentKind { kind: k, lot },
                ) && final(self).session_view() == old(self).session_view(),
            },
    {
        match self.session.record(catalog, handle, lot) {
            Ok(c) => Ok(c),
            Err(kind) => Err(ReplayError::UnknownComponentKind { kind, lot }),
        }
    }

    /// How to decode an update of `handle`.
    pub fn plan_update(&self, handle: u16) -> (r: UpdatePlan)
        ensures
            (r.steps@, r.check_consumption) == update_plan_of(self.session_view(), handle),
    {
        match self.session.recipe_for_update(handle) {
            Some(recipe) => {
                let mut steps: Vec<LeafDecoder> = Vec::new();
                let mut i: usize = 0;
                while i < recipe.len()
                    invariant
                        i <= recipe@.len(),
                        steps@ == recipe@.take(i as int),
                    decreases recipe.len() - i,
                {
                    steps.push(recipe[i]);
                    assert(steps@ =~= recipe@.take(i + 1));
                    i += 1;
                }
                assert(recipe@.take(recipe@.len() as int) =~= recipe@);
                UpdatePlan { steps, check_consumption: true }
            },
            None => {
                let r = UpdatePlan { steps: Vec::new(), check_consumption: false };
                assert(r.steps@ =~= Seq::<LeafDecoder>::empty());
                r
            },
        }
    }

    /// Closes a decoded entry whose decoding left `remaining` of `declared`
    /// bytes unread: counts it, unless the check applies to its action and
    /// bytes are left. `plan_check` is the update plan's flag, and matters
    /// for updates only.
    pub fn finish_entry(
        &mut self,
        action: EntryAction,
        plan_check: bool,
        declared: usize,
        remaining: usize,
    ) -> (r: Result<(), ReplayError>)
        requires
            action != EntryAction::Skip,
            old(self).count() < usize::MAX,
        ensures
            r == entry_outcome(consumption_checked(action, plan_check), declared, remaining),
            final(self).session_view() == old(self).session_view(),
            final(self).count() == old(self).count() + (if r is Ok {
                1nat
            } else {
                0nat
            }),
    {
        let check = match action {
            EntryAction::Update => plan_check,
            _ => true,
        };
        if check && remaining != 0 {
            return Err(ReplayError::IncompleteConsumption { declared, remaining });
        }
        self.packet_count = self.packet_count + 1;
        Ok(())
    }
}

/// Where a service message that starts at `pos` ends.
pub open spec fn lu_end(b: Seq<u8>, pos: int) -> int {
    if le_u16(b, pos) == 0 {
        pos + 2 + MESSAGE_HEADER_SIZE + HANDSHAKE_SIZE
    } else {
        pos + 2 + MESSAGE_HEADER_SIZE + LOGIN_REQUEST_SIZE
    }
}

/// Whether `b` opens with the user-message id and a readable service message.
pub open spec fn auth_entry_readable(b: Seq<u8>) -> bool {
    1 <= b.len() && b[0] == USER_MESSAGE_ID && lu_fits(b, 1)
}

/// Decodes the payload of an entry addressed to the auth server and checks
/// that it is consumed exactly.
pub fn decode_auth_server_entry(payload: &[u8]) -> (r: Result<LuMessage, ReplayError>)
    ensures
        !auth_entry_readable(payload@) <==> r == Err::<LuMessage, ReplayError>(
            ReplayError::Malformed,
        ),
        auth_entry_readable(payload@) && lu_end(payload@, 1) != payload@.len() <==> r == Err::<
            LuMessage,
            ReplayError,
        >(
            ReplayError::IncompleteConsumption {
                declared: payload@.len() as usize,
                remaining: (payload@.len() - lu_end(payload@, 1)) as usize,
            },
        ),
        r is Ok <==> auth_entry_readable(payload@) && lu_end(payload@, 1) == payload@.len(),
        match r {
            Ok(m) => lu_at(m, payload@, 1, payload@.len() as int),
            Err(_) => true,
        },
{
    let len: usize = payload.len();
    match read_u8(payload, 0) {
        Some(USER_MESSAGE_ID) => {},
        _ => {
            return Err(ReplayError::Malformed);
        },
    }
    match LuMessage::deserialize(payload, 1) {
        Some((m, end)) => {
            if end != len {
                return Err(ReplayError::IncompleteConsumption { declared: len, remaining: len - end });
            }
            Ok(m)
        },
        None => Err(ReplayError::Malformed),
    }
}


/// Construction entries always get the consumption check: such an entry
/// succeeds exactly when decoding consumed its whole declared size, and any
/// bytes left give `IncompleteConsumption` with the declared size and the
/// remainder.
pub proof fn law_construction_consumed_exactly(
    tag: Seq<u8>,
    plan_check: bool,
    declared: usize,
    remaining: usize,
)
    requires
        category_of(tag) == Category::ObjectConstruction,
    ensures
        action_of(category_of(tag)) == EntryAction::Construct,
        consumption_checked(action_of(category_of(tag)), plan_check),
        entry_outcome(consumption_checked(EntryAction::Construct, plan_check), declared, remaining) is Ok
            <==> remaining == 0,
        remaining != 0 ==> entry_outcome(
            consumption_checked(EntryAction::Construct, plan_check),
            declared,
            remaining,
        ) == Err::<(), ReplayError>(ReplayError::IncompleteConsumption { declared, remaining }),
{
}

/// An entry whose tag the classifier ignores, a deny-listed sub-code among
/// them, is skipped: no decode of it happens and no check applies to it.
pub proof fn law_ignored_entry_unread(tag: Seq<u8>)
    requires
        category_of(tag) == Category::Ignored,
    ensures
        action_of(category_of(tag)) == EntryAction::Skip,
        !consumption_checked(action_of(category_of(tag)), true),
{
}

/// An update of a handle that no construction in the current unit bound
/// decodes no step and never fails the consumption check, however many bytes
/// its payload holds.
pub proof fn law_unknown_handle_skips(
    session: Map<u16, (u32, Seq<LeafDecoder>)>,
    handle: u16,
    declared: usize,
    remaining: usize,
)
    requires
        !session.contains_key(handle),
    ensures
        update_plan_of(session, handle).0.len() == 0,
        entry_outcome(
            consumption_checked(EntryAction::Update, update_plan_of(session, handle).1),
            declared,
            remaining,
        ) == Ok::<(), ReplayError>(()),
{
}

/// A handle bound in one capture unit is unknown in the next: after the
/// reset that starts a unit, its updates get no recipe and no check.
pub proof fn law_units_independent(unit_a: Map<u16, (u32, Seq<LeafDecoder>)>, handle: u16)
    requires
        unit_a.contains_key(handle),
    ensures
        update_plan_of(unit_a, handle) == (unit_a[handle].1, true),
        update_plan_of(Map::<u16, (u32, Seq<LeafDecoder>)>::empty(), handle) == (
            Seq::<LeafDecoder>::empty(),
            false,
        ),
{
}

} // verus!
