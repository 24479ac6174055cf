//! The lifecycle orchestrator: the decision core of the `event` command
//! family.  It authorizes the invoker, derives the names and the
//! permission template of a new event's resource cluster, tracks the
//! creation protocol step by step until the cluster can be persisted,
//! plans teardown in the order that keeps the registry the source of
//! truth, and decides the `list`, `member` and `init` commands.
//!
//! Every call that actually touches the messaging platform is performed
//! outside the library; the orchestrator is handed the resulting
//! identifiers as plain values.

use crate::events::{
    channels_of, get_event_by_channel, insert_channels, insert_event, ChannelLink, EventData,
    EventRow, Registry, RegistryError,
};
use vstd::prelude::*;
use vstd::string::StringExecFns;

verus! {

/// Permission bit: see the channel.
pub const VIEW_CHANNEL: u64 = 1024;

/// Permission bit: post messages in the channel.
pub const SEND_MESSAGES: u64 = 2048;

/// Permission bit: manage the channel.
pub const MANAGE_CHANNELS: u64 = 16;

/// Whom one entry of the permission template addresses.
#[derive(Clone, Copy, PartialEq, Eq, Structural, Debug)]
pub enum PermissionTarget {
    Role(u64),
    Member(u64),
}

/// One access-control entry: a target plus the permission bits it is
/// granted and denied.
#[derive(Clone, Copy, PartialEq, Eq, Structural, Debug)]
pub struct PermissionEntry {
    pub target: PermissionTarget,
    pub allow: u64,
    pub deny: u64,
}

/// Derives the access-control template applied identically to an
/// event's category and to every channel beneath it: the public role
/// loses sight of the channel, the player role may view and post, the
/// manager role and the bot may additionally manage channels.
pub fn permission_template(
    everyone_role: u64,
    player_role: u64,
    manager_role: u64,
    bot_user: u64,
) -> (r: Vec<PermissionEntry>)
    ensures
        r@ == seq![
            (PermissionEntry {
                target: PermissionTarget::Role(everyone_role),
                allow: 0,
                deny: VIEW_CHANNEL,
            }),
            (PermissionEntry {
                target: PermissionTarget::Role(player_role),
                allow: VIEW_CHANNEL | SEND_MESSAGES,
                deny: 0,
            }),
            (PermissionEntry {
                target: PermissionTarget::Role(manager_role),
                allow: MANAGE_CHANNELS | VIEW_CHANNEL | SEND_MESSAGES,
                deny: 0,
            }),
            (PermissionEntry {
                target: PermissionTarget::Member(bot_user),
                allow: VIEW_CHANNEL | MANAGE_CHANNELS | SEND_MESSAGES,
                deny: 0,
            }),
        ],
{
    let mut r: Vec<PermissionEntry> = Vec::new();
    r.push(
        PermissionEntry { target: PermissionTarget::Role(everyone_role), allow: 0, deny: VIEW_CHANNEL },
    );
    r.push(
        PermissionEntry {
            target: PermissionTarget::Role(player_role),
            allow: VIEW_CHANNEL | SEND_MESSAGES,
            deny: 0,
        },
    );
    r.push(
        PermissionEntry {
            target: PermissionTarget::Role(manager_role),
            allow: MANAGE_CHANNELS | VIEW_CHANNEL | SEND_MESSAGES,
            deny: 0,
        },
    );
    r.push(
        PermissionEntry {
            target: PermissionTarget::Member(bot_user),
            allow: VIEW_CHANNEL | MANAGE_CHANNELS | SEND_MESSAGES,
            deny: 0,
        },
    );
    proof {
        assert(r@ =~= seq![
            (PermissionEntry {
                target: PermissionTarget::Role(everyone_role),
                allow: 0,
                deny: VIEW_CHANNEL,
            }),
            (PermissionEntry {
                target: PermissionTarget::Role(player_role),
                allow: VIEW_CHANNEL | SEND_MESSAGES,
                deny: 0,
            }),
            (PermissionEntry {
                target: PermissionTarget::Role(manager_role),
                allow: MANAGE_CHANNELS | VIEW_CHANNEL | SEND_MESSAGES,
                deny: 0,
            }),
            (PermissionEntry {
                target: PermissionTarget::Member(bot_user),
                allow: VIEW_CHANNEL | MANAGE_CHANNELS | SEND_MESSAGES,
                deny: 0,
            }),
        ]);
    }
    r
}

/// Derives the two per-event role names from the event name, by the
/// naming convention of the creation protocol.
pub fn role_names(name: &String) -> (r: (String, String))
    ensures
        r.0@ == name@ + "-manager"@,
        r.1@ == name@ + "-player"@,
{
    let manager = name.clone().concat("-manager");
    let player = name.clone().concat("-player");
    (manager, player)
}

/// The outcome of the authorization step of the creation protocol.
#[derive(Clone, Copy, PartialEq, Eq, Structural, Debug)]
pub enum AuthDecision {
    /// The server has no event-manager role configured yet.
    NotInitialized,
    /// The invoker lacks the event-manager role: answer with a polite
    /// permission-denied reply; a normal negative outcome, not an error.
    Denied,
    /// The invoker holds the event-manager role.
    Allowed { manager_role_id: u64 },
}

/// Authorizes a creation request: the server must have its
/// event-manager role configured and the invoker must hold it.
/// `lookup` is the result of `get_server_manager_role_id`;
/// `invoker_has_role` reports whether the invoker holds that role.
pub fn authorize(lookup: Result<u64, RegistryError>, invoker_has_role: bool) -> (r: AuthDecision)
    ensures
        match lookup {
            Ok(role_id) => if invoker_has_role {
                r == (AuthDecision::Allowed { manager_role_id: role_id })
            } else {
                r == AuthDecision::Denied
            },
            Err(_) => r == AuthDecision::NotInitialized,
        },
{
    match lookup {
        Err(_) => AuthDecision::NotInitialized,
        Ok(role_id) => {
            if invoker_has_role {
                AuthDecision::Allowed { manager_role_id: role_id }
            } else {
                AuthDecision::Denied
            }
        },
    }
}

/// The fixed banner line of every announcement message.
pub open spec fn announcement_banner_spec() -> Seq<char> {
    ":trumpet: :trumpet: :trumpet: NEW EVENT :trumpet: :trumpet: :trumpet:"@
}

/// The fixed footer of every announcement, instructing users to react
/// with the join marker.
pub open spec fn announcement_footer_spec() -> Seq<char> {
    "React with \u{2705} to join the event"@
}

/// The rich announcement message the creation protocol publishes, as
/// plain values: the platform-specific embed is assembled outside the
/// library from exactly these parts.
pub struct Announcement {
    pub content: String,
    pub title: String,
    pub description: String,
    pub creator_field: String,
    pub summary_field: Option<String>,
    pub thumbnail: Option<String>,
    pub image: Option<String>,
    pub footer: String,
}

/// Composes the announcement of a new event: title from the event
/// name, the description (empty when none was given), the creator
/// field, an optional summary field, the optional thumbnail and
/// picture, the fixed banner and the fixed join-instruction footer.
pub fn compose_announcement(
    name: &String,
    description: &Option<String>,
    short_description: &Option<String>,
    thumbnail: &Option<String>,
    picture: &Option<String>,
    creator_name: &String,
) -> (r: Announcement)
    ensures
        r.content@ == announcement_banner_spec(),
        r.title@ == name@,
        r.description@ == (match *description {
            Some(d) => d@,
            None => Seq::<char>::empty(),
        }),
        r.creator_field@ == creator_name@,
        r.summary_field == *short_description,
        r.thumbnail == *thumbnail,
        r.image == *picture,
        r.footer@ == announcement_footer_spec(),
{
    Announcement {
        content: ":trumpet: :trumpet: :trumpet: NEW EVENT :trumpet: :trumpet: :trumpet:".to_owned(),
        title: name.clone(),
        description: match description {
            Some(d) => d.clone(),
            None => String::new(),
        },
        creator_field: creator_name.clone(),
        summary_field: match short_description {
            Some(s) => Some(s.clone()),
            None => None,
        },
        thumbnail: match thumbnail {
            Some(t) => Some(t.clone()),
            None => None,
        },
        image: match picture {
            Some(p) => Some(p.clone()),
            None => None,
        },
        footer: "React with \u{2705} to join the event".to_owned(),
    }
}

/// How far the creation protocol has come.  The protocol is linear and
/// never backtracks: a failure of a platform call aborts it without
/// compensating earlier steps (a documented limitation).
#[derive(Clone, Copy, PartialEq, Eq, Structural, Debug)]
pub enum CreatePhase {
    /// The invoker is authorized; no resources exist yet.
    Authorized,
    /// The manager and player roles exist.
    RolesCreated,
    /// The invoker has been given the manager role.
    CreatorGranted,
    /// The category channel exists.
    CategoryCreated,
    /// The general channel exists beneath the category.
    ChannelCreated,
    /// The announcement message is posted in the invoking channel.
    Published,
    /// The join-marker reaction is attached to the announcement.
    Marked,
}

/// One run of the creation protocol: the creation inputs plus the
/// external identifiers collected so far, tracked phase by phase so
/// that the cluster is persisted only once it is complete.
pub struct CreateSession {
    pub server_id: u64,
    pub invoker_id: u64,
    pub invoking_channel_id: u64,
    pub name: String,
    pub short_description: Option<String>,
    pub description: Option<String>,
    pub thumbnail: Option<String>,
    pub picture: Option<String>,
    pub manager_role_id: u64,
    pub participant_role_id: u64,
    pub category_id: u64,
    pub general_channel_id: u64,
    pub manifest_id: u64,
    pub phase: CreatePhase,
}

impl CreateSession {
    /// Both per-event roles have been allocated.
    pub open spec fn roles_set(self) -> bool {
        self.manager_role_id != 0 && self.participant_role_id != 0
    }

    /// Well-formedness: the inputs are valid and every external
    /// identifier collected up to the current phase is a real resource
    /// identifier, which is never zero.
    pub open spec fn wf(self) -> bool {
        &&& self.server_id != 0
        &&& self.invoking_channel_id != 0
        &&& self.name@.len() > 0
        &&& match self.phase {
            CreatePhase::Authorized => true,
            CreatePhase::RolesCreated => self.roles_set(),
            CreatePhase::CreatorGranted => self.roles_set(),
            CreatePhase::CategoryCreated => self.roles_set() && self.category_id != 0,
            CreatePhase::ChannelCreated => self.roles_set() && self.category_id != 0
                && self.general_channel_id != 0,
            CreatePhase::Published => self.roles_set() && self.category_id != 0
                && self.general_channel_id != 0 && self.manifest_id != 0,
            CreatePhase::Marked => self.roles_set() && self.category_id != 0
                && self.general_channel_id != 0 && self.manifest_id != 0,
        }
    }

    /// Opens a session for an authorized creation request.  The name
    /// is required and non-empty; the server and the invoking channel
    /// are real resources.
    pub fn begin(
        server_id: u64,
        invoker_id: u64,
        invoking_channel_id: u64,
        name: String,
        short_description: Option<String>,
        description: Option<String>,
        thumbnail: Option<String>,
        picture: Option<String>,
    ) -> (r: CreateSession)
        requires
            server_id != 0,
            invoking_channel_id != 0,
            name@.len() > 0,
        ensures
            r.wf(),
            r.phase == CreatePhase::Authorized,
            r.server_id == server_id,
            r.invoker_id == invoker_id,
            r.invoking_channel_id == invoking_channel_id,
            r.name == name,
            r.short_description == short_description,
            r.description == description,
            r.thumbnail == thumbnail,
            r.picture == picture,
    {
        CreateSession {
            server_id,
            invoker_id,
            invoking_channel_id,
            name,
            short_description,
            description,
            thumbnail,
            picture,
            manager_role_id: 0,
            participant_role_id: 0,
            category_id: 0,
            general_channel_id: 0,
            manifest_id: 0,
            phase: CreatePhase::Authorized,
        }
    }

    /// Records the two freshly created per-event roles.
    pub fn on_roles_created(&mut self, manager_role_id: u64, participant_role_id: u64)
        requires
            old(self).wf(),
            old(self).phase == CreatePhase::Authorized,
            manager_role_id != 0,
            participant_role_id != 0,
        ensures
            final(self).wf(),
            *final(self) == (CreateSession {
                manager_role_id: manager_role_id,
                participant_role_id: participant_role_id,
                phase: CreatePhase::RolesCreated,
                ..*old(self)
            }),
    {
        self.manager_role_id = manager_role_id;
        self.participant_role_id = participant_role_id;
        self.phase = CreatePhase::RolesCreated;
    }

    /// Records that the invoker has been granted the manager role.
    pub fn on_creator_granted(&mut self)
        requires
            old(self).wf(),
            old(self).phase == CreatePhase::RolesCreated,
        ensures
            final(self).wf(),
            *final(self) == (CreateSession { phase: CreatePhase::CreatorGranted, ..*old(self) }),
    {
        self.phase = CreatePhase::CreatorGranted;
    }

    /// Records the freshly created category channel.
    pub fn on_category_created(&mut self, category_id: u64)
        requires
            old(self).wf(),
            old(self).phase == CreatePhase::CreatorGranted,
            category_id != 0,
        ensures
            final(self).wf(),
            *final(self) == (CreateSession {
                category_id: category_id,
                phase: CreatePhase::CategoryCreated,
                ..*old(self)
            }),
    {
        self.category_id = category_id;
        self.phase = CreatePhase::CategoryCreated;
    }

    /// Records the freshly created general channel.
    pub fn on_channel_created(&mut self, general_channel_id: u64)
        requires
            old(self).wf(),
            old(self).phase == CreatePhase::CategoryCreated,
            general_channel_id != 0,
        ensures
            final(self).wf(),
            *final(self) == (CreateSession {
                general_channel_id: general_channel_id,
                phase: CreatePhase::ChannelCreated,
                ..*old(self)
            }),
    {
        self.general_channel_id = general_channel_id;
        self.phase = CreatePhase::ChannelCreated;
    }

    /// Records the posted announcement message.
    pub fn on_published(&mut self, manifest_id: u64)
        requires
            old(self).wf(),
            old(self).phase == CreatePhase::ChannelCreated,
            manifest_id != 0,
        ensures
            final(self).wf(),
            *final(self) == (CreateSession {
                manifest_id: manifest_id,
                phase: CreatePhase::Published,
                ..*old(self)
            }),
    {
        self.manifest_id = manifest_id;
        self.phase = CreatePhase::Published;
    }

    /// Records that the join-marker reaction is attached.
    pub fn on_marked(&mut self)
        requires
            old(self).wf(),
            old(self).phase == CreatePhase::Published,
        ensures
            final(self).wf(),
            *final(self) == (CreateSession { phase: CreatePhase::Marked, ..*old(self) }),
    {
        self.phase = CreatePhase::Marked;
    }

    /// The event row this session persists once complete.
    pub open spec fn event_record(self) -> EventData {
        EventData {
            name: self.name,
            short_description: self.short_description,
            description: self.description,
            thumbnail: self.thumbnail,
            picture: self.picture,
            max_participants: None,
            server_id: self.server_id,
            manager_role_id: self.manager_role_id,
            participant_role_id: self.participant_role_id,
            manifest_id: self.manifest_id,
            manifest_channel_id: self.invoking_channel_id,
            category_id: self.category_id,
        }
    }

    /// The final step of the creation protocol: persists the complete
    /// cluster atomically as one event row, whose six external bindings
    /// are all non-zero, plus exactly one channel link, the general
    /// channel's.  On failure nothing is stored.
    pub fn persist(&self, reg: &mut Registry) -> (r: Result<u64, RegistryError>)
        requires
            old(reg).wf(),
            self.wf(),
            self.phase == CreatePhase::Marked,
        ensures
            final(reg).wf(),
            match r {
                Ok(id) => {
                    &&& id == old(reg).next_id
                    &&& final(reg).events@ == old(reg).events@.push(
                        EventRow { event_id: id, data: self.event_record() },
                    )
                    &&& final(reg).links@ == old(reg).links@.push(
                        ChannelLink { event_id: id, channel_id: self.general_channel_id },
                    )
                    &&& final(reg).manager_roles@ == old(reg).manager_roles@
                    &&& channels_of(final(reg).links@, id) == seq![self.general_channel_id]
                    &&& self.event_record().server_id != 0
                    &&& self.event_record().manager_role_id != 0
                    &&& self.event_record().participant_role_id != 0
                    &&& self.event_record().manifest_id != 0
                    &&& self.event_record().manifest_channel_id != 0
                    &&& self.event_record().category_id != 0
                    &&& old(reg).next_id < u64::MAX
                    &&& !old(reg).channel_linked(self.general_channel_id)
                },
                Err(e) => {
                    &&& e == RegistryError::StorageError
                    &&& *final(reg) == *old(reg)
                    &&& (old(reg).next_id == u64::MAX || old(reg).channel_linked(
                        self.general_channel_id,
                    ))
                },
            },
    {
        match get_event_by_channel(reg, self.general_channel_id) {
            Ok(_) => {
                return Err(RegistryError::StorageError);
            },
            Err(_) => {},
        }
        let data = EventData {
            name: self.name.clone(),
            short_description: match &self.short_description {
                Some(s) => Some(s.clone()),
                None => None,
            },
            description: match &self.description {
                Some(s) => Some(s.clone()),
                None => None,
            },
            thumbnail: match &self.thumbnail {
                Some(s) => Some(s.clone()),
                None => None,
            },
            picture: match &self.picture {
                Some(s) => Some(s.clone()),
                None => None,
            },
            max_participants: None,
            server_id: self.server_id,
            manager_role_id: self.manager_role_id,
            participant_role_id: self.participant_role_id,
            manifest_id: self.manifest_id,
            manifest_channel_id: self.invoking_channel_id,
            category_id: self.category_id,
        };
        let id = match insert_event(reg, &data) {
            Err(e) => {
                return Err(e);
            },
            Ok(id) => id,
        };
        proof {
            assert(reg.events@.last().event_id == id);
            assert(reg.has_event(id));
            assert(!reg.channel_linked(self.general_channel_id));
        }
        let mut chans: Vec<u64> = Vec::new();
        chans.push(self.general_channel_id);
        let ghost mid = *reg;
        match insert_channels(reg, id, chans) {
            Ok(()) => {
                proof {
                    let link = ChannelLink { event_id: id, channel_id: self.general_channel_id };
                    assert(seq![self.general_channel_id].map_values(
                        |c: u64| (ChannelLink { event_id: id, channel_id: c }),
                    ) =~= seq![link]);
                    assert(reg.links@ =~= old(reg).links@.push(link));
                    assert forall|k: int|
                        0 <= k < old(reg).links@.len() implies old(reg).links@[k].event_id
                        != id by {
                        assert(old(reg).has_event(old(reg).links@[k].event_id));
                        let w = choose|w: int|
                            0 <= w < old(reg).events@.len() && old(reg).events@[w].event_id == old(
                                reg,
                            ).links@[k].event_id;
                        assert(old(reg).events@[w].event_id < old(reg).next_id);
                    }
                    crate::events::lemma_channels_of_absent(old(reg).links@, id);
                    assert(reg.links@.drop_last() =~= old(reg).links@);
                    assert(channels_of(reg.links@, id) =~= seq![self.general_channel_id]);
                }
                Ok(id)
            },
            Err(_) => {
                proof {
                    assert(false);
                }
                Err(RegistryError::StorageError)
            },
        }
    }
}

/// The teardown plan of one event: what to remove from the platform,
/// in protocol order, before the registry record is purged.
pub struct TeardownPlan {
    pub event_id: u64,
    pub role_ids: Vec<u64>,
    pub channel_ids: Vec<u64>,
    pub manifest_channel_id: u64,
    pub manifest_id: u64,
    pub farewell: String,
}

/// Plans the teardown of a resolved event: acknowledge with the
/// farewell reply, delete the two event roles, delete every linked
/// channel and the category, best-effort delete the announcement
/// message, and only then purge the registry record — so that a crash
/// mid-teardown leaves the record as the source of truth for any
/// leftover resources.
pub fn teardown_plan(event_id: u64, event: &EventData, linked_channels: Vec<u64>) -> (r:
    TeardownPlan)
    ensures
        r.event_id == event_id,
        r.role_ids@ == seq![event.manager_role_id, event.participant_role_id],
        r.channel_ids@ == linked_channels@.push(event.category_id),
        r.manifest_channel_id == event.manifest_channel_id,
        r.manifest_id == event.manifest_id,
        r.farewell@ == "Deleting event "@ + event.name@ + ". Goodbye !"@,
{
    let mut role_ids: Vec<u64> = Vec::new();
    role_ids.push(event.manager_role_id);
    role_ids.push(event.participant_role_id);
    proof {
        assert(role_ids@ =~= seq![event.manager_role_id, event.participant_role_id]);
    }
    let mut channel_ids = linked_channels;
    channel_ids.push(event.category_id);
    let farewell = "Deleting event ".to_owned().concat(event.name.as_str()).concat(". Goodbye !");
    TeardownPlan {
        event_id,
        role_ids,
        channel_ids,
        manifest_channel_id: event.manifest_channel_id,
        manifest_id: event.manifest_id,
        farewell,
    }
}

/// The fixed reply of `list` on an empty registry.
pub open spec fn no_events_reply_spec() -> Seq<char> {
    "No events registered. Use `event create` to register one !"@
}

/// The names of the given events, in order, separated by line breaks.
pub open spec fn joined_names(rows: Seq<(u64, EventData)>) -> Seq<char>
    decreases rows.len(),
{
    if rows.len() == 0 {
        Seq::empty()
    } else if rows.len() == 1 {
        rows[0].1.name@
    } else {
        joined_names(rows.drop_last()) + "\n"@ + rows.last().1.name@
    }
}

/// The body of the `list` reply: the fixed no-events message on an
/// empty registry, otherwise every stored event's name, one per line.
pub fn list(events: &Vec<(u64, EventData)>) -> (r: String)
    ensures
        events@.len() == 0 ==> r@ == no_events_reply_spec(),
        events@.len() > 0 ==> r@ == joined_names(events@),
{
    if events.len() == 0 {
        return "No events registered. Use `event create` to register one !".to_owned();
    }
    let mut body = events[0].1.name.clone();
    proof {
        assert(events@.take(1).len() == 1);
        assert(events@.take(1)[0] == events@[0]);
    }
    let mut i: usize = 1;
    while i < events.len()
        invariant
            1 <= i <= events@.len(),
            body@ == joined_names(events@.take(i as int)),
        decreases events@.len() - i,
    {
        body.append("\n");
        body.append(events[i].1.name.as_str());
        proof {
            assert(events@.take(i as int + 1).drop_last() =~= events@.take(i as int));
            assert(events@.take(i as int + 1).last() == events@[i as int]);
        }
        i += 1;
    }
    proof {
        assert(events@.take(events@.len() as int) =~= events@);
    }
    body
}

/// The member subcommands: grant participation, revoke participation,
/// or grant per-event managing rights.
#[derive(Clone, Copy, PartialEq, Eq, Structural, Debug)]
pub enum MemberCommand {
    Add,
    Remove,
    AddManager,
}

/// The role mutation a member subcommand asks the platform for.
#[derive(Clone, Copy, PartialEq, Eq, Structural, Debug)]
pub struct RoleChange {
    pub user_id: u64,
    pub role_id: u64,
    pub grant: bool,
}

/// Decides a member subcommand invoked from a channel: resolves the
/// event bound to the invoking channel and names the role to grant or
/// revoke for the given user — the participant role for `Add` and
/// `Remove`, the event's manager role for `AddManager`.  `NotFound`
/// exactly when the invoking channel is not a managed event channel.
pub fn member(reg: &Registry, cmd: MemberCommand, channel_id: u64, user_id: u64) -> (r: Result<
    RoleChange,
    RegistryError,
>)
    requires
        reg.wf(),
    ensures
        match r {
            Ok(ch) => {
                &&& reg.channel_linked(channel_id)
                &&& ch.user_id == user_id
                &&& ch.role_id == (match cmd {
                    MemberCommand::AddManager => reg.event_data(
                        reg.linked_event(channel_id),
                    ).manager_role_id,
                    _ => reg.event_data(reg.linked_event(channel_id)).participant_role_id,
                })
                &&& ch.grant == (cmd != MemberCommand::Remove)
            },
            Err(e) => {
                &&& e == RegistryError::NotFound
                &&& !reg.channel_linked(channel_id)
            },
        },
{
    match get_event_by_channel(reg, channel_id) {
        Err(e) => Err(e),
        Ok((_event_id, data)) => {
            let role_id = match cmd {
                MemberCommand::AddManager => data.manager_role_id,
                _ => data.participant_role_id,
            };
            let grant = match cmd {
                MemberCommand::Remove => false,
                _ => true,
            };
            Ok(RoleChange { user_id, role_id, grant })
        },
    }
}

/// What the one-time `init` command still has to do for a server.
#[derive(Clone, Copy, PartialEq, Eq, Structural, Debug)]
pub enum InitStep {
    /// The server already records a manager role that still exists on
    /// the platform: reply so, change nothing.
    AlreadyInitialized { role_id: u64 },
    /// A role is recorded but has been deleted from the platform: wipe
    /// the record, then create and record a fresh role.
    Reprovision,
    /// Nothing is recorded yet: create and record a fresh role.
    Provision,
}

/// Decides the one-time `init` command.  `recorded` is the result of
/// `get_server_manager_role_id` for the server; `platform_has_role`
/// reports whether the platform still has the recorded role (its value
/// is irrelevant when nothing is recorded).
pub fn init(recorded: Result<u64, RegistryError>, platform_has_role: bool) -> (r: InitStep)
    ensures
        match recorded {
            Ok(role_id) => if platform_has_role {
                r == (InitStep::AlreadyInitialized { role_id: role_id })
            } else {
                r == InitStep::Reprovision
            },
            Err(_) => r == InitStep::Provision,
        },
{
    match recorded {
        Err(_) => InitStep::Provision,
        Ok(role_id) => {
            if platform_has_role {
                InitStep::AlreadyInitialized { role_id }
            } else {
                InitStep::Reprovision
            }
        },
    }
}

/// The conventional name of the per-server event-manager role that
/// `init` provisions.
pub fn manager_role_name() -> (r: String)
    ensures
        r@ == "Menad"@,
{
    "Menad".to_owned()
}

} // verus!
