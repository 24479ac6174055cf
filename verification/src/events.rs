//! The resource registry: a durable mapping from event identity to the
//! remote-resource identifiers and descriptive metadata of that event,
//! together with the loose one-to-many link from an event to its general
//! channels and the per-server record of the event-manager role.
//!
//! The registry is the source of truth for which remote resources belong
//! to which event.  Every operation states exactly what it returns and
//! how it changes the registry; the storage engine that mirrors this
//! state to disk is outside the library.

use vstd::prelude::*;

verus! {

/// An event, as stored in the registry.
///
/// The six `*_id` fields are opaque 64-bit identifiers of resources owned
/// by the remote messaging platform; they are required and never mutated
/// once the event row exists.
#[derive(Debug)]
pub struct EventData {
    pub name: String,
    pub short_description: Option<String>,
    pub description: Option<String>,
    pub thumbnail: Option<String>,
    pub picture: Option<String>,
    pub max_participants: Option<usize>,
    pub server_id: u64,
    pub manager_role_id: u64,
    pub participant_role_id: u64,
    pub manifest_id: u64,
    pub manifest_channel_id: u64,
    pub category_id: u64,
}

impl Clone for EventData {
    fn clone(&self) -> (r: Self)
        ensures
            r == *self,
    {
        EventData {
            name: self.name.clone(),
            short_description: match &self.short_description {
                Some(s) => Some(s.clone()),
                None => None,
            },
            description: match &self.description {
                Some(s) => Some(s.clone()),
                None => None,
            },
            thumbnail: match &self.thumbnail {
                Some(s) => Some(s.clone()),
                None => None,
            },
            picture: match &self.picture {
                Some(s) => Some(s.clone()),
                None => None,
            },
            max_participants: self.max_participants,
            server_id: self.server_id,
            manager_role_id: self.manager_role_id,
            participant_role_id: self.participant_role_id,
            manifest_id: self.manifest_id,
            manifest_channel_id: self.manifest_channel_id,
            category_id: self.category_id,
        }
    }
}

/// One stored event together with its registry-assigned identifier.
pub struct EventRow {
    pub event_id: u64,
    pub data: EventData,
}

/// A link from an event to one of its general channels.  A channel
/// belongs to at most one event; an event may own several channels.
#[derive(Clone, Copy, PartialEq, Eq, Structural)]
pub struct ChannelLink {
    pub event_id: u64,
    pub channel_id: u64,
}

/// The per-server event-manager role, established once by `init`.
#[derive(Clone, Copy, PartialEq, Eq, Structural)]
pub struct ManagerRoleRow {
    pub server_id: u64,
    pub role_id: u64,
}

/// How a registry operation can fail.
#[derive(Clone, Copy, PartialEq, Eq, Structural, Debug)]
pub enum RegistryError {
    /// No registry record exists for the given lookup key.
    NotFound,
    /// The server has no event-manager role configured yet.
    NotInitialized,
    /// A constraint of the registry would be violated.
    StorageError,
}

/// The resource registry itself: the event rows, the channel links and
/// the per-server manager roles, plus the next identifier to assign.
pub struct Registry {
    pub events: Vec<EventRow>,
    pub links: Vec<ChannelLink>,
    pub manager_roles: Vec<ManagerRoleRow>,
    pub next_id: u64,
}

impl Registry {
    /// Well-formedness: identifiers are assigned below `next_id` and are
    /// unique, every channel link points at a stored event, a channel is
    /// linked to at most one event, and each server records at most one
    /// manager role.
    pub open spec fn wf(self) -> bool {
        &&& 0 < self.next_id
        &&& forall|i: int|
            0 <= i < self.events@.len() ==> 0 < #[trigger] self.events@[i].event_id
                < self.next_id
        &&& forall|i: int, j: int|
            0 <= i < self.events@.len() && 0 <= j < self.events@.len() && i != j
                ==> self.events@[i].event_id != self.events@[j].event_id
        &&& forall|i: int|
            0 <= i < self.links@.len() ==> self.has_event(#[trigger] self.links@[i].event_id)
        &&& forall|i: int, j: int|
            0 <= i < self.links@.len() && 0 <= j < self.links@.len() && i != j
                ==> self.links@[i].channel_id != self.links@[j].channel_id
        &&& forall|i: int, j: int|
            0 <= i < self.manager_roles@.len() && 0 <= j < self.manager_roles@.len() && i != j
                ==> self.manager_roles@[i].server_id != self.manager_roles@[j].server_id
    }

    /// Whether an event with the given identifier is stored.
    pub open spec fn has_event(self, event_id: u64) -> bool {
        exists|i: int| 0 <= i < self.events@.len() && self.events@[i].event_id == event_id
    }

    /// The index of the event with the given identifier (meaningful only
    /// when `has_event` holds; under `wf` it is unique).
    pub open spec fn event_index(self, event_id: u64) -> int {
        choose|i: int| 0 <= i < self.events@.len() && self.events@[i].event_id == event_id
    }

    /// The stored data of the event with the given identifier.
    pub open spec fn event_data(self, event_id: u64) -> EventData {
        self.events@[self.event_index(event_id)].data
    }

    /// Whether the given channel is linked to some event.
    pub open spec fn channel_linked(self, channel_id: u64) -> bool {
        exists|i: int| 0 <= i < self.links@.len() && self.links@[i].channel_id == channel_id
    }

    /// The index of the link owning the given channel (meaningful only
    /// when `channel_linked` holds; under `wf` it is unique).
    pub open spec fn link_index(self, channel_id: u64) -> int {
        choose|i: int| 0 <= i < self.links@.len() && self.links@[i].channel_id == channel_id
    }

    /// The event that owns the given channel.
    pub open spec fn linked_event(self, channel_id: u64) -> u64 {
        self.links@[self.link_index(channel_id)].event_id
    }

    /// Whether the given channel is linked to the given event.
    pub open spec fn channel_links_to(self, channel_id: u64, event_id: u64) -> bool {
        exists|i: int|
            0 <= i < self.links@.len() && self.links@[i].channel_id == channel_id
                && self.links@[i].event_id == event_id
    }

    /// Whether the given server has a recorded event-manager role.
    pub open spec fn has_manager_role(self, server_id: u64) -> bool {
        exists|i: int|
            0 <= i < self.manager_roles@.len() && self.manager_roles@[i].server_id == server_id
    }

    /// The index of the manager-role record of the given server
    /// (meaningful only when `has_manager_role` holds).
    pub open spec fn manager_role_index(self, server_id: u64) -> int {
        choose|i: int|
            0 <= i < self.manager_roles@.len() && self.manager_roles@[i].server_id == server_id
    }

    /// The recorded event-manager role of the given server.
    pub open spec fn manager_role(self, server_id: u64) -> u64 {
        self.manager_roles@[self.manager_role_index(server_id)].role_id
    }

    /// A fresh registry: no events, no links, no manager roles.
    pub fn new() -> (r: Registry)
        ensures
            r.wf(),
            r.events@ == Seq::<EventRow>::empty(),
            r.links@ == Seq::<ChannelLink>::empty(),
            r.manager_roles@ == Seq::<ManagerRoleRow>::empty(),
            r.next_id == 1,
    {
        Registry { events: Vec::new(), links: Vec::new(), manager_roles: Vec::new(), next_id: 1 }
    }
}

/// The ordered sequence of channel identifiers linked to the given event.
pub open spec fn channels_of(links: Seq<ChannelLink>, event_id: u64) -> Seq<u64>
    decreases links.len(),
{
    if links.len() == 0 {
        Seq::empty()
    } else {
        let prefix = channels_of(links.drop_last(), event_id);
        if links.last().event_id == event_id {
            prefix.push(links.last().channel_id)
        } else {
            prefix
        }
    }
}

/// A sequence of links none of which belongs to the given event yields
/// no channels for it.
pub proof fn lemma_channels_of_absent(links: Seq<ChannelLink>, event_id: u64)
    requires
        forall|i: int| 0 <= i < links.len() ==> links[i].event_id != event_id,
    ensures
        channels_of(links, event_id) == Seq::<u64>::empty(),
    decreases links.len(),
{
    if links.len() > 0 {
        lemma_channels_of_absent(links.drop_last(), event_id);
    }
}

/// The first stored event row whose announcement-message identifier is
/// the given one, if any.
pub open spec fn manifest_lookup(rows: Seq<EventRow>, manifest_id: u64) -> Option<EventRow>
    decreases rows.len(),
{
    if rows.len() == 0 {
        None
    } else if rows[0].data.manifest_id == manifest_id {
        Some(rows[0])
    } else {
        manifest_lookup(rows.drop_first(), manifest_id)
    }
}

/// The index of the first stored event row carrying the given
/// identifier, if any.
fn find_event_index(reg: &Registry, event_id: u64) -> (r: Option<usize>)
    ensures
        match r {
            Some(j) => j < reg.events@.len() && reg.events@[j as int].event_id == event_id,
            None => !reg.has_event(event_id),
        },
{
    let mut j: usize = 0;
    while j < reg.events.len()
        invariant
            j <= reg.events@.len(),
            forall|k: int| 0 <= k < j ==> reg.events@[k].event_id != event_id,
        decreases reg.events@.len() - j,
    {
        if reg.events[j].event_id == event_id {
            return Some(j);
        }
        j += 1;
    }
    None
}

/// The index of the first channel link carrying the given channel
/// identifier, if any.
fn find_link_index(reg: &Registry, channel_id: u64) -> (r: Option<usize>)
    ensures
        match r {
            Some(i) => i < reg.links@.len() && reg.links@[i as int].channel_id == channel_id,
            None => !reg.channel_linked(channel_id),
        },
{
    let mut i: usize = 0;
    while i < reg.links.len()
        invariant
            i <= reg.links@.len(),
            forall|k: int| 0 <= k < i ==> reg.links@[k].channel_id != channel_id,
        decreases reg.links@.len() - i,
    {
        if reg.links[i].channel_id == channel_id {
            return Some(i);
        }
        i += 1;
    }
    None
}

/// The index of the manager-role record of the given server, if any.
fn find_manager_index(reg: &Registry, server_id: u64) -> (r: Option<usize>)
    ensures
        match r {
            Some(i) => i < reg.manager_roles@.len() && reg.manager_roles@[i as int].server_id
                == server_id,
            None => !reg.has_manager_role(server_id),
        },
{
    let mut i: usize = 0;
    while i < reg.manager_roles.len()
        invariant
            i <= reg.manager_roles@.len(),
            forall|k: int| 0 <= k < i ==> reg.manager_roles@[k].server_id != server_id,
        decreases reg.manager_roles@.len() - i,
    {
        if reg.manager_roles[i].server_id == server_id {
            return Some(i);
        }
        i += 1;
    }
    None
}

/// Resolves an event from any of its linked channels.
pub fn get_event_by_channel(reg: &Registry, channel_id: u64) -> (r: Result<
    (u64, EventData),
    RegistryError,
>)
    requires
        reg.wf(),
    ensures
        match r {
            Ok(p) => {
                &&& reg.channel_linked(channel_id)
                &&& p.0 == reg.linked_event(channel_id)
                &&& reg.has_event(p.0)
                &&& p.1 == reg.event_data(p.0)
            },
            Err(e) => {
                &&& e == RegistryError::NotFound
                &&& !reg.channel_linked(channel_id)
            },
        },
{
    match find_link_index(reg, channel_id) {
        None => Err(RegistryError::NotFound),
        Some(i) => {
            let event_id = reg.links[i].event_id;
            proof {
                assert(reg.channel_linked(channel_id));
                assert(reg.link_index(channel_id) == i);
                assert(reg.has_event(event_id));
            }
            match find_event_index(reg, event_id) {
                Some(j) => {
                    proof {
                        assert(reg.event_index(event_id) == j);
                    }
                    Ok((event_id, reg.events[j].data.clone()))
                },
                None => {
                    proof {
                        assert(false);
                    }
                    Err(RegistryError::NotFound)
                },
            }
        },
    }
}

/// Resolves an event from its announcement-message identifier.
pub fn get_event_by_manifest(reg: &Registry, manifest_id: u64) -> (r: Result<
    (u64, EventData),
    RegistryError,
>)
    requires
        reg.wf(),
    ensures
        match r {
            Ok(p) => manifest_lookup(reg.events@, manifest_id) == Some(
                EventRow { event_id: p.0, data: p.1 },
            ),
            Err(e) => {
                &&& e == RegistryError::NotFound
                &&& manifest_lookup(reg.events@, manifest_id) is None
            },
        },
{
    let rows = &reg.events;
    let mut i: usize = 0;
    proof {
        assert(rows@.skip(0) =~= rows@);
    }
    while i < rows.len()
        invariant
            i <= rows@.len(),
            rows@ == reg.events@,
            manifest_lookup(reg.events@, manifest_id) == manifest_lookup(
                rows@.skip(i as int),
                manifest_id,
            ),
        decreases rows@.len() - i,
    {
        proof {
            assert(rows@.skip(i as int)[0] == rows@[i as int]);
        }
        if rows[i].data.manifest_id == manifest_id {
            return Ok((rows[i].event_id, rows[i].data.clone()));
        }
        proof {
            assert(rows@.skip(i as int).drop_first() =~= rows@.skip(i as int + 1));
        }
        i += 1;
    }
    proof {
        assert(rows@.skip(rows@.len() as int) =~= Seq::<EventRow>::empty());
    }
    Err(RegistryError::NotFound)
}

/// Returns all channel identifiers linked to the given event, in the
/// order the links were stored; the empty sequence if there are none.
pub fn get_channels_by_event_id(reg: &Registry, event_id: u64) -> (r: Vec<u64>)
    ensures
        r@ == channels_of(reg.links@, event_id),
{
    let mut out: Vec<u64> = Vec::new();
    let mut i: usize = 0;
    while i < reg.links.len()
        invariant
            i <= reg.links@.len(),
            out@ == channels_of(reg.links@.take(i as int), event_id),
        decreases reg.links@.len() - i,
    {
        proof {
            assert(reg.links@.take(i as int + 1).drop_last() =~= reg.links@.take(i as int));
            assert(reg.links@.take(i as int + 1).last() == reg.links@[i as int]);
        }
        if reg.links[i].event_id == event_id {
            out.push(reg.links[i].channel_id);
        }
        i += 1;
    }
    proof {
        assert(reg.links@.take(reg.links@.len() as int) =~= reg.links@);
    }
    out
}

/// An unordered snapshot of every stored event, as pairs of identifier
/// and data.
pub fn get_all_events(reg: &Registry) -> (r: Vec<(u64, EventData)>)
    ensures
        r@.len() == reg.events@.len(),
        forall|i: int|
            0 <= i < r@.len() ==> #[trigger] r@[i] == (
                reg.events@[i].event_id,
                reg.events@[i].data,
            ),
{
    let mut out: Vec<(u64, EventData)> = Vec::new();
    let mut i: usize = 0;
    while i < reg.events.len()
        invariant
            i <= reg.events@.len(),
            out@.len() == i,
            forall|k: int|
                0 <= k < i ==> #[trigger] out@[k] == (
                    reg.events@[k].event_id,
                    reg.events@[k].data,
                ),
        decreases reg.events@.len() - i,
    {
        out.push((reg.events[i].event_id, reg.events[i].data.clone()));
        i += 1;
    }
    out
}

/// Returns the identifier of the per-server event-manager role, or
/// `NotInitialized` if the server has none recorded.
pub fn get_server_manager_role_id(reg: &Registry, server_id: u64) -> (r: Result<
    u64,
    RegistryError,
>)
    requires
        reg.wf(),
    ensures
        match r {
            Ok(role_id) => {
                &&& reg.has_manager_role(server_id)
                &&& role_id == reg.manager_role(server_id)
            },
            Err(e) => {
                &&& e == RegistryError::NotInitialized
                &&& !reg.has_manager_role(server_id)
            },
        },
{
    match find_manager_index(reg, server_id) {
        None => Err(RegistryError::NotInitialized),
        Some(i) => {
            proof {
                assert(reg.manager_role_index(server_id) == i);
            }
            Ok(reg.manager_roles[i].role_id)
        },
    }
}

/// Stores a new event and returns its newly assigned identifier.
/// Fails only when the identifier space is exhausted, which the storage
/// schema counts as a constraint violation.
pub fn insert_event(reg: &mut Registry, data: &EventData) -> (r: Result<u64, RegistryError>)
    requires
        old(reg).wf(),
    ensures
        final(reg).wf(),
        match r {
            Ok(id) => {
                &&& id == old(reg).next_id
                &&& !old(reg).has_event(id)
                &&& final(reg).events@ == old(reg).events@.push(
                    EventRow { event_id: id, data: *data },
                )
                &&& final(reg).links@ == old(reg).links@
                &&& final(reg).manager_roles@ == old(reg).manager_roles@
                &&& final(reg).next_id == old(reg).next_id + 1
                &&& old(reg).next_id < u64::MAX
            },
            Err(e) => {
                &&& e == RegistryError::StorageError
                &&& old(reg).next_id == u64::MAX
                &&& *final(reg) == *old(reg)
            },
        },
{
    if reg.next_id == u64::MAX {
        return Err(RegistryError::StorageError);
    }
    let id = reg.next_id;
    reg.events.push(EventRow { event_id: id, data: data.clone() });
    reg.next_id = id + 1;
    proof {
        let pre = *old(reg);
        let post = *reg;
        assert forall|i: int| 0 <= i < post.links@.len() implies post.has_event(
            #[trigger] post.links@[i].event_id,
        ) by {
            assert(pre.has_event(pre.links@[i].event_id));
            let w = choose|j: int|
                0 <= j < pre.events@.len() && pre.events@[j].event_id == pre.links@[i].event_id;
            assert(post.events@[w].event_id == post.links@[i].event_id);
        }
        assert(!pre.has_event(id));
    }
    Ok(id)
}

/// Appends one link row per given channel, all owned by the given
/// event.  Fails with `StorageError`, changing nothing, when the event
/// is unknown (a foreign-key violation: the event must be inserted
/// first) or when a given channel is already linked or repeated (a
/// channel belongs to at most one event).
pub fn insert_channels(reg: &mut Registry, event_id: u64, channels: Vec<u64>) -> (r: Result<
    (),
    RegistryError,
>)
    requires
        old(reg).wf(),
    ensures
        final(reg).wf(),
        match r {
            Ok(()) => {
                &&& old(reg).has_event(event_id)
                &&& forall|i: int|
                    0 <= i < channels@.len() ==> !old(reg).channel_linked(
                        #[trigger] channels@[i],
                    )
                &&& forall|i: int, j: int|
                    0 <= i < j < channels@.len() ==> channels@[i] != channels@[j]
                &&& final(reg).links@ == old(reg).links@ + channels@.map_values(
                    |c: u64| (ChannelLink { event_id: event_id, channel_id: c }),
                )
                &&& final(reg).events@ == old(reg).events@
                &&& final(reg).manager_roles@ == old(reg).manager_roles@
                &&& final(reg).next_id == old(reg).next_id
            },
            Err(e) => {
                &&& e == RegistryError::StorageError
                &&& *final(reg) == *old(reg)
                &&& (!old(reg).has_event(event_id) || exists|i: int|
                    0 <= i < channels@.len() && old(reg).channel_linked(#[trigger] channels@[i])
                    || exists|i: int, j: int|
                        0 <= i < j < channels@.len() && channels@[i] == channels@[j])
            },
        },
{
    if find_event_index(reg, event_id).is_none() {
        return Err(RegistryError::StorageError);
    }
    let mut i: usize = 0;
    while i < channels.len()
        invariant
            *reg == *old(reg),
            old(reg).wf(),
            i <= channels@.len(),
            forall|k: int| 0 <= k < i ==> !reg.channel_linked(#[trigger] channels@[k]),
            forall|k1: int, k2: int| 0 <= k1 < k2 < i ==> channels@[k1] != channels@[k2],
        decreases channels@.len() - i,
    {
        if find_link_index(reg, channels[i]).is_some() {
            proof {
                assert(old(reg).channel_linked(channels@[i as int]));
            }
            return Err(RegistryError::StorageError);
        }
        let mut j: usize = 0;
        while j < i
            invariant
                *reg == *old(reg),
                old(reg).wf(),
                j <= i,
                i < channels@.len(),
                forall|k: int| 0 <= k < j ==> channels@[k] != channels@[i as int],
            decreases i - j,
        {
            if channels[j] == channels[i] {
                proof {
                    assert(channels@[j as int] == channels@[i as int] && j < i);
                }
                return Err(RegistryError::StorageError);
            }
            j += 1;
        }
        i += 1;
    }
    let mut i: usize = 0;
    proof {
        assert(channels@.take(0).map_values(
            |c: u64| (ChannelLink { event_id: event_id, channel_id: c }),
        ) =~= Seq::<ChannelLink>::empty());
        assert(reg.links@ =~= reg.links@ + channels@.take(0).map_values(
            |c: u64| (ChannelLink { event_id: event_id, channel_id: c }),
        ));
    }
    while i < channels.len()
        invariant
            i <= channels@.len(),
            old(reg).wf(),
            old(reg).has_event(event_id),
            reg.events@ == old(reg).events@,
            reg.manager_roles@ == old(reg).manager_roles@,
            reg.next_id == old(reg).next_id,
            forall|k: int|
                0 <= k < channels@.len() ==> !old(reg).channel_linked(#[trigger] channels@[k]),
            forall|k1: int, k2: int| 0 <= k1 < k2 < channels@.len() ==> channels@[k1]
                != channels@[k2],
            reg.links@ == old(reg).links@ + channels@.take(i as int).map_values(
                |c: u64| (ChannelLink { event_id: event_id, channel_id: c }),
            ),
        decreases channels@.len() - i,
    {
        reg.links.push(ChannelLink { event_id: event_id, channel_id: channels[i] });
        proof {
            let f = |c: u64| (ChannelLink { event_id: event_id, channel_id: c });
            assert(channels@.take(i as int + 1).map_values(f) =~= channels@.take(
                i as int,
            ).map_values(f).push(f(channels@[i as int])));
            assert(old(reg).links@ + channels@.take(i as int + 1).map_values(f) =~= (old(
                reg,
            ).links@ + channels@.take(i as int).map_values(f)).push(f(channels@[i as int])));
        }
        i += 1;
    }
    proof {
        let f = |c: u64| (ChannelLink { event_id: event_id, channel_id: c });
        assert(channels@.take(channels@.len() as int) =~= channels@);
        let pre = *old(reg);
        let post = *reg;
        let n = pre.links@.len() as int;
        assert forall|a: int, b: int|
            0 <= a < post.links@.len() && 0 <= b < post.links@.len() && a != b implies post.links@[a].channel_id
            != post.links@[b].channel_id by {
            if a < n && b < n {
            } else if a < n && b >= n {
                assert(post.links@[b] == f(channels@[b - n]));
                assert(!pre.channel_linked(channels@[b - n]));
                assert(pre.links@[a].channel_id != channels@[b - n]);
            } else if a >= n && b < n {
                assert(post.links@[a] == f(channels@[a - n]));
                assert(!pre.channel_linked(channels@[a - n]));
                assert(pre.links@[b].channel_id != channels@[a - n]);
            } else {
                assert(post.links@[a] == f(channels@[a - n]));
                assert(post.links@[b] == f(channels@[b - n]));
            }
        }
        assert forall|k: int| 0 <= k < post.links@.len() implies post.has_event(
            #[trigger] post.links@[k].event_id,
        ) by {
            if k < n {
                assert(pre.has_event(pre.links@[k].event_id));
                let w = choose|j: int|
                    0 <= j < pre.events@.len() && pre.events@[j].event_id
                        == pre.links@[k].event_id;
                assert(post.events@[w].event_id == post.links@[k].event_id);
            } else {
                assert(post.links@[k] == f(channels@[k - n]));
                let w = choose|j: int|
                    0 <= j < pre.events@.len() && pre.events@[j].event_id == event_id;
                assert(post.events@[w].event_id == event_id);
            }
        }
    }
    Ok(())
}

/// Purges the event with the given identifier: its channel links go
/// first (the cascade), then the event row itself.  Deleting an unknown
/// identifier is not an error; it simply affects zero rows.  Returns the
/// number of channel links removed.
pub fn delete_event(reg: &mut Registry, event_id: u64) -> (r: usize)
    requires
        old(reg).wf(),
    ensures
        final(reg).wf(),
        final(reg).events@ == old(reg).events@.filter(|row: EventRow| row.event_id != event_id),
        final(reg).links@ == old(reg).links@.filter(|l: ChannelLink| l.event_id != event_id),
        final(reg).manager_roles@ == old(reg).manager_roles@,
        final(reg).next_id == old(reg).next_id,
        !final(reg).has_event(event_id),
        forall|c: u64| old(reg).channel_links_to(c, event_id) ==> !final(reg).channel_linked(c),
        r == old(reg).links@.len() - final(reg).links@.len(),
{
    let mut kept_events: Vec<EventRow> = Vec::new();
    let mut i: usize = 0;
    proof {
        reveal(Seq::filter);
        assert(reg.events@.take(0).filter(|row: EventRow| row.event_id != event_id)
            =~= Seq::<EventRow>::empty());
    }
    while i < reg.events.len()
        invariant
            *reg == *old(reg),
            old(reg).wf(),
            i <= reg.events@.len(),
            kept_events@.len() <= i,
            kept_events@ == reg.events@.take(i as int).filter(
                |row: EventRow| row.event_id != event_id,
            ),
            forall|k: int|
                0 <= k < kept_events@.len() ==> exists|j: int|
                    0 <= j < i && reg.events@[j] == #[trigger] kept_events@[k],
        decreases reg.events@.len() - i,
    {
        proof {
            assert(reg.events@.take(i as int + 1).drop_last() =~= reg.events@.take(i as int));
            assert(reg.events@.take(i as int + 1).last() == reg.events@[i as int]);
        }
        if reg.events[i].event_id != event_id {
            kept_events.push(
                EventRow { event_id: reg.events[i].event_id, data: reg.events[i].data.clone() },
            );
            proof {
                assert(kept_events@.last() == reg.events@[i as int]);
            }
        }
        proof {
            reveal(Seq::filter);
            assert(kept_events@ == reg.events@.take(i as int + 1).filter(
                |row: EventRow| row.event_id != event_id,
            ));
        }
        i += 1;
    }
    let mut kept_links: Vec<ChannelLink> = Vec::new();
    let mut i: usize = 0;
    proof {
        reveal(Seq::filter);
        assert(reg.links@.take(0).filter(|l: ChannelLink| l.event_id != event_id)
            =~= Seq::<ChannelLink>::empty());
    }
    while i < reg.links.len()
        invariant
            *reg == *old(reg),
            old(reg).wf(),
            i <= reg.links@.len(),
            kept_links@.len() <= i,
            kept_links@ == reg.links@.take(i as int).filter(
                |l: ChannelLink| l.event_id != event_id,
            ),
            forall|k: int|
                0 <= k < kept_links@.len() ==> exists|j: int|
                    0 <= j < i && reg.links@[j] == #[trigger] kept_links@[k],
        decreases reg.links@.len() - i,
    {
        proof {
            assert(reg.links@.take(i as int + 1).drop_last() =~= reg.links@.take(i as int));
            assert(reg.links@.take(i as int + 1).last() == reg.links@[i as int]);
        }
        if reg.links[i].event_id != event_id {
            kept_links.push(reg.links[i]);
        }
        proof {
            reveal(Seq::filter);
            assert(kept_links@ == reg.links@.take(i as int + 1).filter(
                |l: ChannelLink| l.event_id != event_id,
            ));
        }
        i += 1;
    }
    proof {
        assert(reg.events@.take(reg.events@.len() as int) =~= reg.events@);
        assert(reg.links@.take(reg.links@.len() as int) =~= reg.links@);
    }
    let removed = reg.links.len() - kept_links.len();
    let ghost pre = *old(reg);
    reg.events = kept_events;
    reg.links = kept_links;
    proof {
        let post = *reg;
        assert forall|k: int|
            0 <= k < post.events@.len() implies 0 < (#[trigger] post.events@[k]).event_id
            < post.next_id && post.events@[k].event_id != event_id by {
            let j = choose|j: int| 0 <= j < pre.events@.len() && pre.events@[j] == post.events@[k];
            assert(post.events@[k] == pre.events@[j]);
            assert(pre.events@.filter(|row: EventRow| row.event_id != event_id)[k]
                == post.events@[k]);
            pre.events@.lemma_filter_pred(|row: EventRow| row.event_id != event_id, k);
        }
        assert forall|a: int, b: int|
            0 <= a < post.events@.len() && 0 <= b < post.events@.len() && a != b implies post.events@[a].event_id
            != post.events@[b].event_id by {
            let ja = choose|j: int|
                0 <= j < pre.events@.len() && pre.events@[j] == post.events@[a];
            let jb = choose|j: int|
                0 <= j < pre.events@.len() && pre.events@[j] == post.events@[b];
            if ja == jb {
                assert(post.events@[a] == post.events@[b]);
                let p = |row: EventRow| row.event_id != event_id;
                pre.events@.lemma_filter_len(p);
                assert(post.events@ == pre.events@.filter(p));
                lemma_filter_no_dup(pre.events@, p, a, b);
            }
        }
        assert forall|k: int|
            0 <= k < post.links@.len() implies post.links@[k].event_id != event_id
            && post.has_event(#[trigger] post.links@[k].event_id) by {
            pre.links@.lemma_filter_pred(|l: ChannelLink| l.event_id != event_id, k);
            let j = choose|j: int| 0 <= j < pre.links@.len() && pre.links@[j] == post.links@[k];
            assert(pre.has_event(pre.links@[j].event_id));
            let w = choose|w: int|
                0 <= w < pre.events@.len() && pre.events@[w].event_id == pre.links@[j].event_id;
            let p = |row: EventRow| row.event_id != event_id;
            pre.events@.lemma_filter_contains(p, w);
            assert(pre.events@.filter(p).contains(pre.events@[w]));
            let v = choose|v: int|
                0 <= v < post.events@.len() && post.events@[v] == pre.events@[w];
            assert(post.events@[v].event_id == post.links@[k].event_id);
        }
        assert forall|a: int, b: int|
            0 <= a < post.links@.len() && 0 <= b < post.links@.len() && a != b implies post.links@[a].channel_id
            != post.links@[b].channel_id by {
            let ja = choose|j: int| 0 <= j < pre.links@.len() && pre.links@[j] == post.links@[a];
            let jb = choose|j: int| 0 <= j < pre.links@.len() && pre.links@[j] == post.links@[b];
            if ja == jb {
                assert(post.links@[a] == post.links@[b]);
                lemma_filter_no_dup(pre.links@, |l: ChannelLink| l.event_id != event_id, a, b);
            }
        }
        assert forall|c: u64| pre.channel_links_to(c, event_id) implies !post.channel_linked(
            c,
        ) by {
            let j = choose|j: int|
                0 <= j < pre.links@.len() && pre.links@[j].channel_id == c && pre.links@[j].event_id
                    == event_id;
            if post.channel_linked(c) {
                let k = choose|k: int|
                    0 <= k < post.links@.len() && post.links@[k].channel_id == c;
                let jk = choose|w: int|
                    0 <= w < pre.links@.len() && pre.links@[w] == post.links@[k];
                assert(pre.links@[jk].channel_id == c);
                assert(jk == j);
            }
        }
    }
    removed
}

/// Two positions of a filtered sequence never hold one and the same
/// element of a duplicate-free source sequence.
proof fn lemma_filter_no_dup<A>(s: Seq<A>, pred: spec_fn(A) -> bool, a: int, b: int)
    requires
        forall|i: int, j: int| 0 <= i < s.len() && 0 <= j < s.len() && i != j ==> s[i] != s[j],
        0 <= a < s.filter(pred).len(),
        0 <= b < s.filter(pred).len(),
        a != b,
    ensures
        s.filter(pred)[a] != s.filter(pred)[b],
    decreases s.len(),
{
    reveal(Seq::filter);
    if s.len() > 0 {
        let sub = s.drop_last().filter(pred);
        if a < sub.len() && b < sub.len() {
            lemma_filter_no_dup(s.drop_last(), pred, a, b);
        } else {
            s.drop_last().lemma_filter_len(pred);
            if a < sub.len() {
                lemma_filter_elem_of(s.drop_last(), pred, a);
            } else {
                lemma_filter_elem_of(s.drop_last(), pred, b);
            }
        }
    }
}

/// Every element of a filtered sequence stands somewhere in its source.
proof fn lemma_filter_elem_of<A>(s: Seq<A>, pred: spec_fn(A) -> bool, k: int)
    requires
        0 <= k < s.filter(pred).len(),
    ensures
        exists|i: int| 0 <= i < s.len() && s[i] == s.filter(pred)[k],
    decreases s.len(),
{
    reveal(Seq::filter);
    if s.len() > 0 {
        let sub = s.drop_last().filter(pred);
        if k < sub.len() {
            lemma_filter_elem_of(s.drop_last(), pred, k);
            let i = choose|i: int| 0 <= i < s.drop_last().len() && s.drop_last()[i] == sub[k];
            assert(s[i] == s.filter(pred)[k]);
        } else {
            assert(s[s.len() - 1] == s.filter(pred)[k]);
        }
    }
}

/// Everything a filtered sequence holds satisfies the predicate, and a
/// sequence whose elements all satisfy it is left whole.
proof fn lemma_filter_all_kept<A>(s: Seq<A>, pred: spec_fn(A) -> bool)
    requires
        forall|i: int| 0 <= i < s.len() ==> pred(#[trigger] s[i]),
    ensures
        s.filter(pred) == s,
    decreases s.len(),
{
    reveal(Seq::filter);
    if s.len() > 0 {
        lemma_filter_all_kept(s.drop_last(), pred);
        assert(s.drop_last().push(s.last()) =~= s);
    }
}

/// Law: once an event has been purged, none of its previously linked
/// channels is linked any more, so a later lookup by any such channel
/// reports `NotFound`.  The second hypothesis is exactly what
/// `delete_event` ensures about the link table.
pub proof fn lemma_purged_channel_unresolvable(
    pre: Registry,
    post: Registry,
    event_id: u64,
    channel_id: u64,
)
    requires
        pre.wf(),
        post.links@ == pre.links@.filter(|l: ChannelLink| l.event_id != event_id),
        pre.channel_links_to(channel_id, event_id),
    ensures
        !post.channel_linked(channel_id),
{
    let j = choose|j: int|
        0 <= j < pre.links@.len() && pre.links@[j].channel_id == channel_id
            && pre.links@[j].event_id == event_id;
    if post.channel_linked(channel_id) {
        let k = choose|k: int| 0 <= k < post.links@.len() && post.links@[k].channel_id
            == channel_id;
        pre.links@.lemma_filter_pred(|l: ChannelLink| l.event_id != event_id, k);
        lemma_filter_elem_of(pre.links@, |l: ChannelLink| l.event_id != event_id, k);
        let w = choose|w: int| 0 <= w < pre.links@.len() && pre.links@[w] == post.links@[k];
        assert(pre.links@[w].channel_id == channel_id);
        assert(w == j);
    }
}

/// Law: purging an event is idempotent.  Once the first purge has run,
/// a second purge of the same identifier finds nothing to remove: both
/// tables are left exactly as they are and zero rows are affected.  The
/// hypotheses are exactly what `delete_event` ensures about the tables.
pub proof fn lemma_purge_idempotent(pre: Registry, post: Registry, event_id: u64)
    requires
        pre.wf(),
        post.events@ == pre.events@.filter(|row: EventRow| row.event_id != event_id),
        post.links@ == pre.links@.filter(|l: ChannelLink| l.event_id != event_id),
    ensures
        post.events@.filter(|row: EventRow| row.event_id != event_id) == post.events@,
        post.links@.filter(|l: ChannelLink| l.event_id != event_id) == post.links@,
{
    assert forall|i: int| 0 <= i < post.events@.len() implies (|row: EventRow|
        row.event_id != event_id)(#[trigger] post.events@[i]) by {
        pre.events@.lemma_filter_pred(|row: EventRow| row.event_id != event_id, i);
    }
    lemma_filter_all_kept(post.events@, |row: EventRow| row.event_id != event_id);
    assert forall|i: int| 0 <= i < post.links@.len() implies (|l: ChannelLink|
        l.event_id != event_id)(#[trigger] post.links@[i]) by {
        pre.links@.lemma_filter_pred(|l: ChannelLink| l.event_id != event_id, i);
    }
    lemma_filter_all_kept(post.links@, |l: ChannelLink| l.event_id != event_id);
}

/// Records the per-server event-manager role.  Fails with
/// `StorageError`, changing nothing, if the server already has one.
pub fn insert_server_manager_role(reg: &mut Registry, server_id: u64, role_id: u64) -> (r: Result<
    (),
    RegistryError,
>)
    requires
        old(reg).wf(),
    ensures
        final(reg).wf(),
        match r {
            Ok(()) => {
                &&& !old(reg).has_manager_role(server_id)
                &&& final(reg).manager_roles@ == old(reg).manager_roles@.push(
                    ManagerRoleRow { server_id: server_id, role_id: role_id },
                )
                &&& final(reg).events@ == old(reg).events@
                &&& final(reg).links@ == old(reg).links@
                &&& final(reg).next_id == old(reg).next_id
                &&& final(reg).has_manager_role(server_id)
                &&& final(reg).manager_role(server_id) == role_id
            },
            Err(e) => {
                &&& e == RegistryError::StorageError
                &&& old(reg).has_manager_role(server_id)
                &&& *final(reg) == *old(reg)
            },
        },
{
    match find_manager_index(reg, server_id) {
        Some(_) => Err(RegistryError::StorageError),
        None => {
            reg.manager_roles.push(ManagerRoleRow { server_id: server_id, role_id: role_id });
            proof {
                let post = *reg;
                let n = post.manager_roles@.len() - 1;
                assert(post.manager_roles@[n].server_id == server_id);
                assert(post.manager_role_index(server_id) == n);
            }
            Ok(())
        },
    }
}

/// Removes the per-server event-manager role record; removing an
/// unrecorded server affects zero rows.  Returns the number of rows
/// removed.
pub fn delete_server_manager_role(reg: &mut Registry, server_id: u64) -> (r: usize)
    requires
        old(reg).wf(),
    ensures
        final(reg).wf(),
        final(reg).manager_roles@ == old(reg).manager_roles@.filter(
            |m: ManagerRoleRow| m.server_id != server_id,
        ),
        !final(reg).has_manager_role(server_id),
        final(reg).events@ == old(reg).events@,
        final(reg).links@ == old(reg).links@,
        final(reg).next_id == old(reg).next_id,
        r == old(reg).manager_roles@.len() - final(reg).manager_roles@.len(),
{
    let mut kept: Vec<ManagerRoleRow> = Vec::new();
    let mut i: usize = 0;
    proof {
        reveal(Seq::filter);
        assert(reg.manager_roles@.take(0).filter(|m: ManagerRoleRow| m.server_id != server_id)
            =~= Seq::<ManagerRoleRow>::empty());
    }
    while i < reg.manager_roles.len()
        invariant
            *reg == *old(reg),
            old(reg).wf(),
            i <= reg.manager_roles@.len(),
            kept@.len() <= i,
            kept@ == reg.manager_roles@.take(i as int).filter(
                |m: ManagerRoleRow| m.server_id != server_id,
            ),
            forall|k: int|
                0 <= k < kept@.len() ==> exists|j: int|
                    0 <= j < i && reg.manager_roles@[j] == #[trigger] kept@[k],
            forall|k: int| 0 <= k < kept@.len() ==> #[trigger] kept@[k].server_id != server_id,
        decreases reg.manager_roles@.len() - i,
    {
        proof {
            assert(reg.manager_roles@.take(i as int + 1).drop_last() =~= reg.manager_roles@.take(
                i as int,
            ));
            assert(reg.manager_roles@.take(i as int + 1).last() == reg.manager_roles@[i as int]);
        }
        if reg.manager_roles[i].server_id != server_id {
            kept.push(reg.manager_roles[i]);
        }
        proof {
            reveal(Seq::filter);
            assert(kept@ == reg.manager_roles@.take(i as int + 1).filter(
                |m: ManagerRoleRow| m.server_id != server_id,
            ));
        }
        i += 1;
    }
    proof {
        assert(reg.manager_roles@.take(reg.manager_roles@.len() as int) =~= reg.manager_roles@);
    }
    let removed = reg.manager_roles.len() - kept.len();
    let ghost pre = *old(reg);
    reg.manager_roles = kept;
    proof {
        let post = *reg;
        assert forall|k: int| 0 <= k < post.links@.len() implies post.has_event(
            #[trigger] post.links@[k].event_id,
        ) by {
            assert(pre.has_event(pre.links@[k].event_id));
            let w = choose|j: int|
                0 <= j < pre.events@.len() && pre.events@[j].event_id == pre.links@[k].event_id;
            assert(post.events@[w].event_id == post.links@[k].event_id);
        }
        assert forall|a: int, b: int|
            0 <= a < post.manager_roles@.len() && 0 <= b < post.manager_roles@.len() && a
                != b implies post.manager_roles@[a].server_id != post.manager_roles@[b].server_id by {
            let ja = choose|j: int|
                0 <= j < pre.manager_roles@.len() && pre.manager_roles@[j]
                    == post.manager_roles@[a];
            let jb = choose|j: int|
                0 <= j < pre.manager_roles@.len() && pre.manager_roles@[j]
                    == post.manager_roles@[b];
            if ja == jb {
                assert(post.manager_roles@[a] == post.manager_roles@[b]);
                lemma_filter_no_dup(
                    pre.manager_roles@,
                    |m: ManagerRoleRow| m.server_id != server_id,
                    a,
                    b,
                );
            }
        }
    }
    removed
}

} // verus!
