//! The closed enumerations of attribute values and their wire codes.

use vstd::prelude::*;

use crate::text::{lowers_to, lowers_to_word, same_text};

verus! {

/// Who may see a part of a profile.
#[derive(Clone, Copy, Debug, PartialEq, Eq, Hash, Structural)]
pub enum PrivacySetting {
    Private,
    Buddies,
    Anyone,
}

/// The value a wire code denotes, if any.
pub open spec fn privacy_setting_of(v: u8) -> Option<PrivacySetting> {
    if v == 0 {
        Some(PrivacySetting::Private)
    } else if v == 1 {
        Some(PrivacySetting::Buddies)
    } else if v == 2 {
        Some(PrivacySetting::Anyone)
    } else {
        None
    }
}

/// The wire code of a value.
pub open spec fn privacy_setting_code(x: PrivacySetting) -> u8 {
    match x {
        PrivacySetting::Private => 0,
        PrivacySetting::Buddies => 1,
        PrivacySetting::Anyone => 2,
    }
}

impl PrivacySetting {
    /// Reads a wire code; one that names no value is refused.
    pub fn try_from_wire(v: u8) -> (r: Result<PrivacySetting, &'static str>)
        ensures
            match r {
                Ok(x) => privacy_setting_of(v) == Some(x),
                Err(_) => privacy_setting_of(v) is None,
            },
    {
        if v == 0 {
            return Ok(PrivacySetting::Private);
        }
        if v == 1 {
            return Ok(PrivacySetting::Buddies);
        }
        if v == 2 {
            return Ok(PrivacySetting::Anyone);
        }
        Err("Cannot convert u8 into PrivacySetting")
    }

    /// The wire code of this value.
    pub fn to_wire(self) -> (r: u8)
        ensures
            r == privacy_setting_code(self),
    {
        match self {
            PrivacySetting::Private => 0,
            PrivacySetting::Buddies => 1,
            PrivacySetting::Anyone => 2,
        }
    }
}

/// Reading back the wire code of any PrivacySetting value gives that value.
pub proof fn lemma_privacy_setting_round_trip(x: PrivacySetting)
    ensures
        privacy_setting_of(privacy_setting_code(x)) == Some(x),
{
    match x {
        PrivacySetting::Private => {},
        PrivacySetting::Buddies => {},
        PrivacySetting::Anyone => {},
    }
}

/// The stage a project is at.
#[derive(Clone, Copy, Debug, PartialEq, Eq, Hash, Structural)]
pub enum ProjectStatus {
    Prepping,
    InProgress,
    Drafted,
    Completed,
    Published,
}

/// The value a wire code denotes, if any.
pub open spec fn project_status_of(v: Seq<char>) -> Option<ProjectStatus> {
    if lowers_to(v, "prepping"@) {
        Some(ProjectStatus::Prepping)
    } else if lowers_to(v, "in progress"@) || lowers_to(v, "inprogress"@) {
        Some(ProjectStatus::InProgress)
    } else if lowers_to(v, "drafted"@) {
        Some(ProjectStatus::Drafted)
    } else if lowers_to(v, "completed"@) {
        Some(ProjectStatus::Completed)
    } else if lowers_to(v, "published"@) {
        Some(ProjectStatus::Published)
    } else {
        None
    }
}

/// The wire code of a value.
pub open spec fn project_status_code(x: ProjectStatus) -> Seq<char> {
    match x {
        ProjectStatus::Prepping => "Prepping"@,
        ProjectStatus::InProgress => "In Progress"@,
        ProjectStatus::Drafted => "Drafted"@,
        ProjectStatus::Completed => "Completed"@,
        ProjectStatus::Published => "Published"@,
    }
}

impl ProjectStatus {
    /// Reads a wire code; one that names no value is refused.
    pub fn try_from_wire(v: &str) -> (r: Result<ProjectStatus, &'static str>)
        ensures
            match r {
                Ok(x) => project_status_of(v@) == Some(x),
                Err(_) => project_status_of(v@) is None,
            },
    {
        if lowers_to_word(v, "prepping") {
            return Ok(ProjectStatus::Prepping);
        }
        if lowers_to_word(v, "in progress") || lowers_to_word(v, "inprogress") {
            return Ok(ProjectStatus::InProgress);
        }
        if lowers_to_word(v, "drafted") {
            return Ok(ProjectStatus::Drafted);
        }
        if lowers_to_word(v, "completed") {
            return Ok(ProjectStatus::Completed);
        }
        if lowers_to_word(v, "published") {
            return Ok(ProjectStatus::Published);
        }
        Err("Cannot convert &str into ProjectStatus")
    }

    /// The wire code of this value.
    pub fn to_wire(self) -> (r: &'static str)
        ensures
            r@ == project_status_code(self),
    {
        match self {
            ProjectStatus::Prepping => "Prepping",
            ProjectStatus::InProgress => "In Progress",
            ProjectStatus::Drafted => "Drafted",
            ProjectStatus::Completed => "Completed",
            ProjectStatus::Published => "Published",
        }
    }
}

/// Reading back the wire code of any ProjectStatus value gives that value.
pub proof fn lemma_project_status_round_trip(x: ProjectStatus)
    ensures
        project_status_of(project_status_code(x)) == Some(x),
{
    reveal_strlit("Completed");
    assert("Completed"@.len() == 9 && "Completed"@[0] == 'C' && "Completed"@[1] == 'o' && "Completed"@[2] == 'm' && "Completed"@[3] == 'p' && "Completed"@[4] == 'l' && "Completed"@[5] == 'e' && "Completed"@[6] == 't' && "Completed"@[7] == 'e' && "Completed"@[8] == 'd');
    reveal_strlit("Drafted");
    assert("Drafted"@.len() == 7 && "Drafted"@[0] == 'D' && "Drafted"@[1] == 'r' && "Drafted"@[2] == 'a' && "Drafted"@[3] == 'f' && "Drafted"@[4] == 't' && "Drafted"@[5] == 'e' && "Drafted"@[6] == 'd');
    reveal_strlit("In Progress");
    assert("In Progress"@.len() == 11 && "In Progress"@[0] == 'I' && "In Progress"@[1] == 'n' && "In Progress"@[2] == ' ' && "In Progress"@[3] == 'P' && "In Progress"@[4] == 'r' && "In Progress"@[5] == 'o' && "In Progress"@[6] == 'g' && "In Progress"@[7] == 'r' && "In Progress"@[8] == 'e' && "In Progress"@[9] == 's' && "In Progress"@[10] == 's');
    reveal_strlit("Prepping");
    assert("Prepping"@.len() == 8 && "Prepping"@[0] == 'P' && "Prepping"@[1] == 'r' && "Prepping"@[2] == 'e' && "Prepping"@[3] == 'p' && "Prepping"@[4] == 'p' && "Prepping"@[5] == 'i' && "Prepping"@[6] == 'n' && "Prepping"@[7] == 'g');
    reveal_strlit("Published");
    assert("Published"@.len() == 9 && "Published"@[0] == 'P' && "Published"@[1] == 'u' && "Published"@[2] == 'b' && "Published"@[3] == 'l' && "Published"@[4] == 'i' && "Published"@[5] == 's' && "Published"@[6] == 'h' && "Published"@[7] == 'e' && "Published"@[8] == 'd');
    reveal_strlit("completed");
    assert("completed"@.len() == 9 && "completed"@[0] == 'c' && "completed"@[1] == 'o' && "completed"@[2] == 'm' && "completed"@[3] == 'p' && "completed"@[4] == 'l' && "completed"@[5] == 'e' && "completed"@[6] == 't' && "completed"@[7] == 'e' && "completed"@[8] == 'd');
    reveal_strlit("drafted");
    assert("drafted"@.len() == 7 && "drafted"@[0] == 'd' && "drafted"@[1] == 'r' && "drafted"@[2] == 'a' && "drafted"@[3] == 'f' && "drafted"@[4] == 't' && "drafted"@[5] == 'e' && "drafted"@[6] == 'd');
    reveal_strlit("in progress");
    assert("in progress"@.len() == 11 && "in progress"@[0] == 'i' && "in progress"@[1] == 'n' && "in progress"@[2] == ' ' && "in progress"@[3] == 'p' && "in progress"@[4] == 'r' && "in progress"@[5] == 'o' && "in progress"@[6] == 'g' && "in progress"@[7] == 'r' && "in progress"@[8] == 'e' && "in progress"@[9] == 's' && "in progress"@[10] == 's');
    reveal_strlit("inprogress");
    assert("inprogress"@.len() == 10 && "inprogress"@[0] == 'i' && "inprogress"@[1] == 'n' && "inprogress"@[2] == 'p' && "inprogress"@[3] == 'r' && "inprogress"@[4] == 'o' && "inprogress"@[5] == 'g' && "inprogress"@[6] == 'r' && "inprogress"@[7] == 'e' && "inprogress"@[8] == 's' && "inprogress"@[9] == 's');
    reveal_strlit("prepping");
    assert("prepping"@.len() == 8 && "prepping"@[0] == 'p' && "prepping"@[1] == 'r' && "prepping"@[2] == 'e' && "prepping"@[3] == 'p' && "prepping"@[4] == 'p' && "prepping"@[5] == 'i' && "prepping"@[6] == 'n' && "prepping"@[7] == 'g');
    reveal_strlit("published");
    assert("published"@.len() == 9 && "published"@[0] == 'p' && "published"@[1] == 'u' && "published"@[2] == 'b' && "published"@[3] == 'l' && "published"@[4] == 'i' && "published"@[5] == 's' && "published"@[6] == 'h' && "published"@[7] == 'e' && "published"@[8] == 'd');
    match x {
        ProjectStatus::Prepping => {},
        ProjectStatus::InProgress => {},
        ProjectStatus::Drafted => {},
        ProjectStatus::Completed => {},
        ProjectStatus::Published => {},
    }
}

/// The kind of event a challenge belongs to.
#[derive(Clone, Copy, Debug, PartialEq, Eq, Hash, Structural)]
pub enum EventType {
    NanoWrimo,
    CampNano,
    Custom,
}

/// The value a wire code denotes, if any.
pub open spec fn event_type_of(v: u8) -> Option<EventType> {
    if v == 0 {
        Some(EventType::NanoWrimo)
    } else if v == 1 {
        Some(EventType::CampNano)
    } else if v == 2 {
        Some(EventType::Custom)
    } else {
        None
    }
}

/// The wire code of a value.
pub open spec fn event_type_code(x: EventType) -> u8 {
    match x {
        EventType::NanoWrimo => 0,
        EventType::CampNano => 1,
        EventType::Custom => 2,
    }
}

impl EventType {
    /// Reads a wire code; one that names no value is refused.
    pub fn try_from_wire(v: u8) -> (r: Result<EventType, &'static str>)
        ensures
            match r {
                Ok(x) => event_type_of(v) == Some(x),
                Err(_) => event_type_of(v) is None,
            },
    {
        if v == 0 {
            return Ok(EventType::NanoWrimo);
        }
        if v == 1 {
            return Ok(EventType::CampNano);
        }
        if v == 2 {
            return Ok(EventType::Custom);
        }
        Err("Cannot convert u8 into EventType")
    }

    /// The wire code of this value.
    pub fn to_wire(self) -> (r: u8)
        ensures
            r == event_type_code(self),
    {
        match self {
            EventType::NanoWrimo => 0,
            EventType::CampNano => 1,
            EventType::Custom => 2,
        }
    }
}

/// Reading back the wire code of any EventType value gives that value.
pub proof fn lemma_event_type_round_trip(x: EventType)
    ensures
        event_type_of(event_type_code(x)) == Some(x),
{
    match x {
        EventType::NanoWrimo => {},
        EventType::CampNano => {},
        EventType::Custom => {},
    }
}

/// The kind of a group.
#[derive(Clone, Copy, Debug, PartialEq, Eq, Hash, Structural)]
pub enum GroupType {
    Everyone,
    Region,
    Buddies,
    WritingGroup,
    Event,
}

/// The value a wire code denotes, if any.
pub open spec fn group_type_of(v: Seq<char>) -> Option<GroupType> {
    if lowers_to(v, "everyone"@) {
        Some(GroupType::Everyone)
    } else if lowers_to(v, "region"@) {
        Some(GroupType::Region)
    } else if lowers_to(v, "buddies"@) {
        Some(GroupType::Buddies)
    } else if lowers_to(v, "writing group"@) {
        Some(GroupType::WritingGroup)
    } else if lowers_to(v, "event"@) {
        Some(GroupType::Event)
    } else {
        None
    }
}

/// The wire code of a value.
pub open spec fn group_type_code(x: GroupType) -> Seq<char> {
    match x {
        GroupType::Everyone => "everyone"@,
        GroupType::Region => "region"@,
        GroupType::Buddies => "buddies"@,
        GroupType::WritingGroup => "writing group"@,
        GroupType::Event => "event"@,
    }
}

impl GroupType {
    /// Reads a wire code; one that names no value is refused.
    pub fn try_from_wire(v: &str) -> (r: Result<GroupType, &'static str>)
        ensures
            match r {
                Ok(x) => group_type_of(v@) == Some(x),
                Err(_) => group_type_of(v@) is None,
            },
    {
        if lowers_to_word(v, "everyone") {
            return Ok(GroupType::Everyone);
        }
        if lowers_to_word(v, "region") {
            return Ok(GroupType::Region);
        }
        if lowers_to_word(v, "buddies") {
            return Ok(GroupType::Buddies);
        }
        if lowers_to_word(v, "writing group") {
            return Ok(GroupType::WritingGroup);
        }
        if lowers_to_word(v, "event") {
            return Ok(GroupType::Event);
        }
        Err("Cannot convert &str into GroupType")
    }

    /// The wire code of this value.
    pub fn to_wire(self) -> (r: &'static str)
        ensures
            r@ == group_type_code(self),
    {
        match self {
            GroupType::Everyone => "everyone",
            GroupType::Region => "region",
            GroupType::Buddies => "buddies",
            GroupType::WritingGroup => "writing group",
            GroupType::Event => "event",
        }
    }
}

/// Reading back the wire code of any GroupType value gives that value.
pub proof fn lemma_group_type_round_trip(x: GroupType)
    ensures
        group_type_of(group_type_code(x)) == Some(x),
{
    reveal_strlit("buddies");
    assert("buddies"@.len() == 7 && "buddies"@[0] == 'b' && "buddies"@[1] == 'u' && "buddies"@[2] == 'd' && "buddies"@[3] == 'd' && "buddies"@[4] == 'i' && "buddies"@[5] == 'e' && "buddies"@[6] == 's');
    reveal_strlit("event");
    assert("event"@.len() == 5 && "event"@[0] == 'e' && "event"@[1] == 'v' && "event"@[2] == 'e' && "event"@[3] == 'n' && "event"@[4] == 't');
    reveal_strlit("everyone");
    assert("everyone"@.len() == 8 && "everyone"@[0] == 'e' && "everyone"@[1] == 'v' && "everyone"@[2] == 'e' && "everyone"@[3] == 'r' && "everyone"@[4] == 'y' && "everyone"@[5] == 'o' && "everyone"@[6] == 'n' && "everyone"@[7] == 'e');
    reveal_strlit("region");
    assert("region"@.len() == 6 && "region"@[0] == 'r' && "region"@[1] == 'e' && "region"@[2] == 'g' && "region"@[3] == 'i' && "region"@[4] == 'o' && "region"@[5] == 'n');
    reveal_strlit("writing group");
    assert("writing group"@.len() == 13 && "writing group"@[0] == 'w' && "writing group"@[1] == 'r' && "writing group"@[2] == 'i' && "writing group"@[3] == 't' && "writing group"@[4] == 'i' && "writing group"@[5] == 'n' && "writing group"@[6] == 'g' && "writing group"@[7] == ' ' && "writing group"@[8] == 'g' && "writing group"@[9] == 'r' && "writing group"@[10] == 'o' && "writing group"@[11] == 'u' && "writing group"@[12] == 'p');
    match x {
        GroupType::Everyone => {},
        GroupType::Region => {},
        GroupType::Buddies => {},
        GroupType::WritingGroup => {},
        GroupType::Event => {},
    }
}

/// How a user came into a group.
#[derive(Clone, Copy, Debug, PartialEq, Eq, Hash, Structural)]
pub enum EntryMethod {
    Join,
    Creator,
    Create,
    Invited,
    Blocked,
}

/// The value a wire code denotes, if any.
pub open spec fn entry_method_of(v: Seq<char>) -> Option<EntryMethod> {
    if lowers_to(v, "join"@) {
        Some(EntryMethod::Join)
    } else if lowers_to(v, "creator"@) {
        Some(EntryMethod::Creator)
    } else if lowers_to(v, "create"@) {
        Some(EntryMethod::Create)
    } else if lowers_to(v, "invited"@) {
        Some(EntryMethod::Invited)
    } else if lowers_to(v, "blocked"@) {
        Some(EntryMethod::Blocked)
    } else {
        None
    }
}

/// The wire code of a value.
pub open spec fn entry_method_code(x: EntryMethod) -> Seq<char> {
    match x {
        EntryMethod::Join => "join"@,
        EntryMethod::Creator => "creator"@,
        EntryMethod::Create => "create"@,
        EntryMethod::Invited => "invited"@,
        EntryMethod::Blocked => "blocked"@,
    }
}

impl EntryMethod {
    /// Reads a wire code; one that names no value is refused.
    pub fn try_from_wire(v: &str) -> (r: Result<EntryMethod, &'static str>)
        ensures
            match r {
                Ok(x) => entry_method_of(v@) == Some(x),
                Err(_) => entry_method_of(v@) is None,
            },
    {
        if lowers_to_word(v, "join") {
            return Ok(EntryMethod::Join);
        }
        if lowers_to_word(v, "creator") {
            return Ok(EntryMethod::Creator);
        }
        if lowers_to_word(v, "create") {
            return Ok(EntryMethod::Create);
        }
        if lowers_to_word(v, "invited") {
            return Ok(EntryMethod::Invited);
        }
        if lowers_to_word(v, "blocked") {
            return Ok(EntryMethod::Blocked);
        }
        Err("Cannot convert &str into EntryMethod")
    }

    /// The wire code of this value.
    pub fn to_wire(self) -> (r: &'static str)
        ensures
            r@ == entry_method_code(self),
    {
        match self {
            EntryMethod::Join => "join",
            EntryMethod::Creator => "creator",
            EntryMethod::Create => "create",
            EntryMethod::Invited => "invited",
            EntryMethod::Blocked => "blocked",
        }
    }
}

/// Reading back the wire code of any EntryMethod value gives that value.
pub proof fn lemma_entry_method_round_trip(x: EntryMethod)
    ensures
        entry_method_of(entry_method_code(x)) == Some(x),
{
    reveal_strlit("blocked");
    assert("blocked"@.len() == 7 && "blocked"@[0] == 'b' && "blocked"@[1] == 'l' && "blocked"@[2] == 'o' && "blocked"@[3] == 'c' && "blocked"@[4] == 'k' && "blocked"@[5] == 'e' && "blocked"@[6] == 'd');
    reveal_strlit("create");
    assert("create"@.len() == 6 && "create"@[0] == 'c' && "create"@[1] == 'r' && "create"@[2] == 'e' && "create"@[3] == 'a' && "create"@[4] == 't' && "create"@[5] == 'e');
    reveal_strlit("creator");
    assert("creator"@.len() == 7 && "creator"@[0] == 'c' && "creator"@[1] == 'r' && "creator"@[2] == 'e' && "creator"@[3] == 'a' && "creator"@[4] == 't' && "creator"@[5] == 'o' && "creator"@[6] == 'r');
    reveal_strlit("invited");
    assert("invited"@.len() == 7 && "invited"@[0] == 'i' && "invited"@[1] == 'n' && "invited"@[2] == 'v' && "invited"@[3] == 'i' && "invited"@[4] == 't' && "invited"@[5] == 'e' && "invited"@[6] == 'd');
    reveal_strlit("join");
    assert("join"@.len() == 4 && "join"@[0] == 'j' && "join"@[1] == 'o' && "join"@[2] == 'i' && "join"@[3] == 'n');
    match x {
        EntryMethod::Join => {},
        EntryMethod::Creator => {},
        EntryMethod::Create => {},
        EntryMethod::Invited => {},
        EntryMethod::Blocked => {},
    }
}

/// The administrative rank of a user.
#[derive(Clone, Copy, Debug, PartialEq, Eq, Hash, Structural)]
pub enum AdminLevel {
    User,
    Admin,
}

/// The value a wire code denotes, if any.
pub open spec fn admin_level_of(v: u8) -> Option<AdminLevel> {
    if v == 0 {
        Some(AdminLevel::User)
    } else if v == 1 {
        Some(AdminLevel::Admin)
    } else {
        None
    }
}

/// The wire code of a value.
pub open spec fn admin_level_code(x: AdminLevel) -> u8 {
    match x {
        AdminLevel::User => 0,
        AdminLevel::Admin => 1,
    }
}

impl AdminLevel {
    /// Reads a wire code; one that names no value is refused.
    pub fn try_from_wire(v: u8) -> (r: Result<AdminLevel, &'static str>)
        ensures
            match r {
                Ok(x) => admin_level_of(v) == Some(x),
                Err(_) => admin_level_of(v) is None,
            },
    {
        if v == 0 {
            return Ok(AdminLevel::User);
        }
        if v == 1 {
            return Ok(AdminLevel::Admin);
        }
        Err("Cannot convert u8 into AdminLevel")
    }

    /// The wire code of this value.
    pub fn to_wire(self) -> (r: u8)
        ensures
            r == admin_level_code(self),
    {
        match self {
            AdminLevel::User => 0,
            AdminLevel::Admin => 1,
        }
    }
}

/// Reading back the wire code of any AdminLevel value gives that value.
pub proof fn lemma_admin_level_round_trip(x: AdminLevel)
    ensures
        admin_level_of(admin_level_code(x)) == Some(x),
{
    match x {
        AdminLevel::User => {},
        AdminLevel::Admin => {},
    }
}

/// What following a notification leads to.
#[derive(Clone, Copy, Debug, PartialEq, Eq, Hash, Structural)]
pub enum ActionType {
    BadgeAwarded,
    BuddiesPage,
    NanoMessages,
    ProjectsPage,
}

/// The value a wire code denotes, if any.
pub open spec fn action_type_of(v: Seq<char>) -> Option<ActionType> {
    if v == "BADGE_AWARDED"@ {
        Some(ActionType::BadgeAwarded)
    } else if v == "BUDDIES_PAGE"@ {
        Some(ActionType::BuddiesPage)
    } else if v == "NANOMESSAGES"@ {
        Some(ActionType::NanoMessages)
    } else if v == "PROJECTS_PAGE"@ {
        Some(ActionType::ProjectsPage)
    } else {
        None
    }
}

/// The wire code of a value.
pub open spec fn action_type_code(x: ActionType) -> Seq<char> {
    match x {
        ActionType::BadgeAwarded => "BADGE_AWARDED"@,
        ActionType::BuddiesPage => "BUDDIES_PAGE"@,
        ActionType::NanoMessages => "NANOMESSAGES"@,
        ActionType::ProjectsPage => "PROJECTS_PAGE"@,
    }
}

impl ActionType {
    /// Reads a wire code; one that names no value is refused.
    pub fn try_from_wire(v: &str) -> (r: Result<ActionType, &'static str>)
        ensures
            match r {
                Ok(x) => action_type_of(v@) == Some(x),
                Err(_) => action_type_of(v@) is None,
            },
    {
        if same_text(v, "BADGE_AWARDED") {
            return Ok(ActionType::BadgeAwarded);
        }
        if same_text(v, "BUDDIES_PAGE") {
            return Ok(ActionType::BuddiesPage);
        }
        if same_text(v, "NANOMESSAGES") {
            return Ok(ActionType::NanoMessages);
        }
        if same_text(v, "PROJECTS_PAGE") {
            return Ok(ActionType::ProjectsPage);
        }
        Err("Cannot convert &str into ActionType")
    }

    /// The wire code of this value.
    pub fn to_wire(self) -> (r: &'static str)
        ensures
            r@ == action_type_code(self),
    {
        match self {
            ActionType::BadgeAwarded => "BADGE_AWARDED",
            ActionType::BuddiesPage => "BUDDIES_PAGE",
            ActionType::NanoMessages => "NANOMESSAGES",
            ActionType::ProjectsPage => "PROJECTS_PAGE",
        }
    }
}

/// Reading back the wire code of any ActionType value gives that value.
pub proof fn lemma_action_type_round_trip(x: ActionType)
    ensures
        action_type_of(action_type_code(x)) == Some(x),
{
    reveal_strlit("BADGE_AWARDED");
    assert("BADGE_AWARDED"@.len() == 13 && "BADGE_AWARDED"@[0] == 'B' && "BADGE_AWARDED"@[1] == 'A' && "BADGE_AWARDED"@[2] == 'D' && "BADGE_AWARDED"@[3] == 'G' && "BADGE_AWARDED"@[4] == 'E' && "BADGE_AWARDED"@[5] == '_' && "BADGE_AWARDED"@[6] == 'A' && "BADGE_AWARDED"@[7] == 'W' && "BADGE_AWARDED"@[8] == 'A' && "BADGE_AWARDED"@[9] == 'R' && "BADGE_AWARDED"@[10] == 'D' && "BADGE_AWARDED"@[11] == 'E' && "BADGE_AWARDED"@[12] == 'D');
    reveal_strlit("BUDDIES_PAGE");
    assert("BUDDIES_PAGE"@.len() == 12 && "BUDDIES_PAGE"@[0] == 'B' && "BUDDIES_PAGE"@[1] == 'U' && "BUDDIES_PAGE"@[2] == 'D' && "BUDDIES_PAGE"@[3] == 'D' && "BUDDIES_PAGE"@[4] == 'I' && "BUDDIES_PAGE"@[5] == 'E' && "BUDDIES_PAGE"@[6] == 'S' && "BUDDIES_PAGE"@[7] == '_' && "BUDDIES_PAGE"@[8] == 'P' && "BUDDIES_PAGE"@[9] == 'A' && "BUDDIES_PAGE"@[10] == 'G' && "BUDDIES_PAGE"@[11] == 'E');
    reveal_strlit("NANOMESSAGES");
    assert("NANOMESSAGES"@.len() == 12 && "NANOMESSAGES"@[0] == 'N' && "NANOMESSAGES"@[1] == 'A' && "NANOMESSAGES"@[2] == 'N' && "NANOMESSAGES"@[3] == 'O' && "NANOMESSAGES"@[4] == 'M' && "NANOMESSAGES"@[5] == 'E' && "NANOMESSAGES"@[6] == 'S' && "NANOMESSAGES"@[7] == 'S' && "NANOMESSAGES"@[8] == 'A' && "NANOMESSAGES"@[9] == 'G' && "NANOMESSAGES"@[10] == 'E' && "NANOMESSAGES"@[11] == 'S');
    reveal_strlit("PROJECTS_PAGE");
    assert("PROJECTS_PAGE"@.len() == 13 && "PROJECTS_PAGE"@[0] == 'P' && "PROJECTS_PAGE"@[1] == 'R' && "PROJECTS_PAGE"@[2] == 'O' && "PROJECTS_PAGE"@[3] == 'J' && "PROJECTS_PAGE"@[4] == 'E' && "PROJECTS_PAGE"@[5] == 'C' && "PROJECTS_PAGE"@[6] == 'T' && "PROJECTS_PAGE"@[7] == 'S' && "PROJECTS_PAGE"@[8] == '_' && "PROJECTS_PAGE"@[9] == 'P' && "PROJECTS_PAGE"@[10] == 'A' && "PROJECTS_PAGE"@[11] == 'G' && "PROJECTS_PAGE"@[12] == 'E');
    match x {
        ActionType::BadgeAwarded => {},
        ActionType::BuddiesPage => {},
        ActionType::NanoMessages => {},
        ActionType::ProjectsPage => {},
    }
}

/// Whether a notification is shown among the recent ones.
#[derive(Clone, Copy, Debug, PartialEq, Eq, Hash, Structural)]
pub enum DisplayStatus {
    AllNotifs,
    RecentNotifs,
}

/// The value a wire code denotes, if any.
pub open spec fn display_status_of(v: u8) -> Option<DisplayStatus> {
    if v == 0 {
        Some(DisplayStatus::AllNotifs)
    } else if v == 1 {
        Some(DisplayStatus::RecentNotifs)
    } else {
        None
    }
}

/// The wire code of a value.
pub open spec fn display_status_code(x: DisplayStatus) -> u8 {
    match x {
        DisplayStatus::AllNotifs => 0,
        DisplayStatus::RecentNotifs => 1,
    }
}

impl DisplayStatus {
    /// Reads a wire code; one that names no value is refused.
    pub fn try_from_wire(v: u8) -> (r: Result<DisplayStatus, &'static str>)
        ensures
            match r {
                Ok(x) => display_status_of(v) == Some(x),
                Err(_) => display_status_of(v) is None,
            },
    {
        if v == 0 {
            return Ok(DisplayStatus::AllNotifs);
        }
        if v == 1 {
            return Ok(DisplayStatus::RecentNotifs);
        }
        Err("Cannot convert u8 into DisplayStatus")
    }

    /// The wire code of this value.
    pub fn to_wire(self) -> (r: u8)
        ensures
            r == display_status_code(self),
    {
        match self {
            DisplayStatus::AllNotifs => 0,
            DisplayStatus::RecentNotifs => 1,
        }
    }
}

/// Reading back the wire code of any DisplayStatus value gives that value.
pub proof fn lemma_display_status_round_trip(x: DisplayStatus)
    ensures
        display_status_of(display_status_code(x)) == Some(x),
{
    match x {
        DisplayStatus::AllNotifs => {},
        DisplayStatus::RecentNotifs => {},
    }
}

/// The form of a piece of writing. `Other` is written as 8; both 6 and 8 are read as `Other`.
#[derive(Clone, Copy, Debug, PartialEq, Eq, Hash, Structural)]
pub enum WritingType {
    Novel,
    ShortStories,
    Memoir,
    Script,
    Nonfiction,
    Poetry,
    Other,
}

/// The value a wire code denotes, if any.
pub open spec fn writing_type_of(v: u8) -> Option<WritingType> {
    if v == 0 {
        Some(WritingType::Novel)
    } else if v == 1 {
        Some(WritingType::ShortStories)
    } else if v == 2 {
        Some(WritingType::Memoir)
    } else if v == 3 {
        Some(WritingType::Script)
    } else if v == 4 {
        Some(WritingType::Nonfiction)
    } else if v == 5 {
        Some(WritingType::Poetry)
    } else if v == 6 || v == 8 {
        Some(WritingType::Other)
    } else {
        None
    }
}

/// The wire code of a value.
pub open spec fn writing_type_code(x: WritingType) -> u8 {
    match x {
        WritingType::Novel => 0,
        WritingType::ShortStories => 1,
        WritingType::Memoir => 2,
        WritingType::Script => 3,
        WritingType::Nonfiction => 4,
        WritingType::Poetry => 5,
        WritingType::Other => 8,
    }
}

impl WritingType {
    /// Reads a wire code; one that names no value is refused.
    pub fn try_from_wire(v: u8) -> (r: Result<WritingType, &'static str>)
        ensures
            match r {
                Ok(x) => writing_type_of(v) == Some(x),
                Err(_) => writing_type_of(v) is None,
            },
    {
        if v == 0 {
            return Ok(WritingType::Novel);
        }
        if v == 1 {
            return Ok(WritingType::ShortStories);
        }
        if v == 2 {
            return Ok(WritingType::Memoir);
        }
        if v == 3 {
            return Ok(WritingType::Script);
        }
        if v == 4 {
            return Ok(WritingType::Nonfiction);
        }
        if v == 5 {
            return Ok(WritingType::Poetry);
        }
        if v == 6 || v == 8 {
            return Ok(WritingType::Other);
        }
        Err("Cannot convert u8 into WritingType")
    }

    /// The wire code of this value.
    pub fn to_wire(self) -> (r: u8)
        ensures
            r == writing_type_code(self),
    {
        match self {
            WritingType::Novel => 0,
            WritingType::ShortStories => 1,
            WritingType::Memoir => 2,
            WritingType::Script => 3,
            WritingType::Nonfiction => 4,
            WritingType::Poetry => 5,
            WritingType::Other => 8,
        }
    }
}

/// Reading back the wire code of any WritingType value gives that value.
pub proof fn lemma_writing_type_round_trip(x: WritingType)
    ensures
        writing_type_of(writing_type_code(x)) == Some(x),
{
    match x {
        WritingType::Novel => {},
        WritingType::ShortStories => {},
        WritingType::Memoir => {},
        WritingType::Script => {},
        WritingType::Nonfiction => {},
        WritingType::Poetry => {},
        WritingType::Other => {},
    }
}

/// The layout of a page or post.
#[derive(Clone, Copy, Debug, PartialEq, Eq, Hash, Structural)]
pub enum ContentType {
    GeneralContent,
    StackedContent,
    Plate,
    GroupOfPeople,
    GroupOfPageCards,
    PersonCard,
    PepTalk,
    PlainText,
}

/// The value a wire code denotes, if any.
pub open spec fn content_type_of(v: Seq<char>) -> Option<ContentType> {
    if v == "General content"@ {
        Some(ContentType::GeneralContent)
    } else if v == "Stacked Content"@ {
        Some(ContentType::StackedContent)
    } else if v == "Plate"@ {
        Some(ContentType::Plate)
    } else if v == "Group of people"@ {
        Some(ContentType::GroupOfPeople)
    } else if v == "Group of page cards"@ {
        Some(ContentType::GroupOfPageCards)
    } else if v == "Person Card"@ {
        Some(ContentType::PersonCard)
    } else if v == "Pep Talk"@ {
        Some(ContentType::PepTalk)
    } else if v == "Plain Text"@ {
        Some(ContentType::PlainText)
    } else {
        None
    }
}

/// The wire code of a value.
pub open spec fn content_type_code(x: ContentType) -> Seq<char> {
    match x {
        ContentType::GeneralContent => "General content"@,
        ContentType::StackedContent => "Stacked Content"@,
        ContentType::Plate => "Plate"@,
        ContentType::GroupOfPeople => "Group of people"@,
        ContentType::GroupOfPageCards => "Group of page cards"@,
        ContentType::PersonCard => "Person Card"@,
        ContentType::PepTalk => "Pep Talk"@,
        ContentType::PlainText => "Plain Text"@,
    }
}

impl ContentType {
    /// Reads a wire code; one that names no value is refused.
    pub fn try_from_wire(v: &str) -> (r: Result<ContentType, &'static str>)
        ensures
            match r {
                Ok(x) => content_type_of(v@) == Some(x),
                Err(_) => content_type_of(v@) is None,
            },
    {
        if same_text(v, "General content") {
            return Ok(ContentType::GeneralContent);
        }
        if same_text(v, "Stacked Content") {
            return Ok(ContentType::StackedContent);
        }
        if same_text(v, "Plate") {
            return Ok(ContentType::Plate);
        }
        if same_text(v, "Group of people") {
            return Ok(ContentType::GroupOfPeople);
        }
        if same_text(v, "Group of page cards") {
            return Ok(ContentType::GroupOfPageCards);
        }
        if same_text(v, "Person Card") {
            return Ok(ContentType::PersonCard);
        }
        if same_text(v, "Pep Talk") {
            return Ok(ContentType::PepTalk);
        }
        if same_text(v, "Plain Text") {
            return Ok(ContentType::PlainText);
        }
        Err("Cannot convert &str into ContentType")
    }

    /// The wire code of this value.
    pub fn to_wire(self) -> (r: &'static str)
        ensures
            r@ == content_type_code(self),
    {
        match self {
            ContentType::GeneralContent => "General content",
            ContentType::StackedContent => "Stacked Content",
            ContentType::Plate => "Plate",
            ContentType::GroupOfPeople => "Group of people",
            ContentType::GroupOfPageCards => "Group of page cards",
            ContentType::PersonCard => "Person Card",
            ContentType::PepTalk => "Pep Talk",
            ContentType::PlainText => "Plain Text",
        }
    }
}

/// Reading back the wire code of any ContentType value gives that value.
pub proof fn lemma_content_type_round_trip(x: ContentType)
    ensures
        content_type_of(content_type_code(x)) == Some(x),
{
    reveal_strlit("General content");
    assert("General content"@.len() == 15 && "General content"@[0] == 'G' && "General content"@[1] == 'e' && "General content"@[2] == 'n' && "General content"@[3] == 'e' && "General content"@[4] == 'r' && "General content"@[5] == 'a' && "General content"@[6] == 'l' && "General content"@[7] == ' ' && "General content"@[8] == 'c' && "General content"@[9] == 'o' && "General content"@[10] == 'n' && "General content"@[11] == 't' && "General content"@[12] == 'e' && "General content"@[13] == 'n' && "General content"@[14] == 't');
    reveal_strlit("Group of page cards");
    assert("Group of page cards"@.len() == 19 && "Group of page cards"@[0] == 'G' && "Group of page cards"@[1] == 'r' && "Group of page cards"@[2] == 'o' && "Group of page cards"@[3] == 'u' && "Group of page cards"@[4] == 'p' && "Group of page cards"@[5] == ' ' && "Group of page cards"@[6] == 'o' && "Group of page cards"@[7] == 'f' && "Group of page cards"@[8] == ' ' && "Group of page cards"@[9] == 'p' && "Group of page cards"@[10] == 'a' && "Group of page cards"@[11] == 'g' && "Group of page cards"@[12] == 'e' && "Group of page cards"@[13] == ' ' && "Group of page cards"@[14] == 'c' && "Group of page cards"@[15] == 'a' && "Group of page cards"@[16] == 'r' && "Group of page cards"@[17] == 'd' && "Group of page cards"@[18] == 's');
    reveal_strlit("Group of people");
    assert("Group of people"@.len() == 15 && "Group of people"@[0] == 'G' && "Group of people"@[1] == 'r' && "Group of people"@[2] == 'o' && "Group of people"@[3] == 'u' && "Group of people"@[4] == 'p' && "Group of people"@[5] == ' ' && "Group of people"@[6] == 'o' && "Group of people"@[7] == 'f' && "Group of people"@[8] == ' ' && "Group of people"@[9] == 'p' && "Group of people"@[10] == 'e' && "Group of people"@[11] == 'o' && "Group of people"@[12] == 'p' && "Group of people"@[13] == 'l' && "Group of people"@[14] == 'e');
    reveal_strlit("Pep Talk");
    assert("Pep Talk"@.len() == 8 && "Pep Talk"@[0] == 'P' && "Pep Talk"@[1] == 'e' && "Pep Talk"@[2] == 'p' && "Pep Talk"@[3] == ' ' && "Pep Talk"@[4] == 'T' && "Pep Talk"@[5] == 'a' && "Pep Talk"@[6] == 'l' && "Pep Talk"@[7] == 'k');
    reveal_strlit("Person Card");
    assert("Person Card"@.len() == 11 && "Person Card"@[0] == 'P' && "Person Card"@[1] == 'e' && "Person Card"@[2] == 'r' && "Person Card"@[3] == 's' && "Person Card"@[4] == 'o' && "Person Card"@[5] == 'n' && "Person Card"@[6] == ' ' && "Person Card"@[7] == 'C' && "Person Card"@[8] == 'a' && "Person Card"@[9] == 'r' && "Person Card"@[10] == 'd');
    reveal_strlit("Plain Text");
    assert("Plain Text"@.len() == 10 && "Plain Text"@[0] == 'P' && "Plain Text"@[1] == 'l' && "Plain Text"@[2] == 'a' && "Plain Text"@[3] == 'i' && "Plain Text"@[4] == 'n' && "Plain Text"@[5] == ' ' && "Plain Text"@[6] == 'T' && "Plain Text"@[7] == 'e' && "Plain Text"@[8] == 'x' && "Plain Text"@[9] == 't');
    reveal_strlit("Plate");
    assert("Plate"@.len() == 5 && "Plate"@[0] == 'P' && "Plate"@[1] == 'l' && "Plate"@[2] == 'a' && "Plate"@[3] == 't' && "Plate"@[4] == 'e');
    reveal_strlit("Stacked Content");
    assert("Stacked Content"@.len() == 15 && "Stacked Content"@[0] == 'S' && "Stacked Content"@[1] == 't' && "Stacked Content"@[2] == 'a' && "Stacked Content"@[3] == 'c' && "Stacked Content"@[4] == 'k' && "Stacked Content"@[5] == 'e' && "Stacked Content"@[6] == 'd' && "Stacked Content"@[7] == ' ' && "Stacked Content"@[8] == 'C' && "Stacked Content"@[9] == 'o' && "Stacked Content"@[10] == 'n' && "Stacked Content"@[11] == 't' && "Stacked Content"@[12] == 'e' && "Stacked Content"@[13] == 'n' && "Stacked Content"@[14] == 't');
    match x {
        ContentType::GeneralContent => {},
        ContentType::StackedContent => {},
        ContentType::Plate => {},
        ContentType::GroupOfPeople => {},
        ContentType::GroupOfPageCards => {},
        ContentType::PersonCard => {},
        ContentType::PepTalk => {},
        ContentType::PlainText => {},
    }
}

/// How a user signed up.
#[derive(Clone, Copy, Debug, PartialEq, Eq, Hash, Structural)]
pub enum RegistrationPath {
    Email,
    Facebook,
    Google,
}

/// The value a wire code denotes, if any.
pub open spec fn registration_path_of(v: Seq<char>) -> Option<RegistrationPath> {
    if lowers_to(v, "email"@) {
        Some(RegistrationPath::Email)
    } else if lowers_to(v, "facebook"@) {
        Some(RegistrationPath::Facebook)
    } else if lowers_to(v, "google"@) {
        Some(RegistrationPath::Google)
    } else {
        None
    }
}

/// The wire code of a value.
pub open spec fn registration_path_code(x: RegistrationPath) -> Seq<char> {
    match x {
        RegistrationPath::Email => "email"@,
        RegistrationPath::Facebook => "Facebook"@,
        RegistrationPath::Google => "Google"@,
    }
}

impl RegistrationPath {
    /// Reads a wire code; one that names no value is refused.
    pub fn try_from_wire(v: &str) -> (r: Result<RegistrationPath, &'static str>)
        ensures
            match r {
                Ok(x) => registration_path_of(v@) == Some(x),
                Err(_) => registration_path_of(v@) is None,
            },
    {
        if lowers_to_word(v, "email") {
            return Ok(RegistrationPath::Email);
        }
        if lowers_to_word(v, "facebook") {
            return Ok(RegistrationPath::Facebook);
        }
        if lowers_to_word(v, "google") {
            return Ok(RegistrationPath::Google);
        }
        Err("Cannot convert &str into RegistrationPath")
    }

    /// The wire code of this value.
    pub fn to_wire(self) -> (r: &'static str)
        ensures
            r@ == registration_path_code(self),
    {
        match self {
            RegistrationPath::Email => "email",
            RegistrationPath::Facebook => "Facebook",
            RegistrationPath::Google => "Google",
        }
    }
}

/// Reading back the wire code of any RegistrationPath value gives that value.
pub proof fn lemma_registration_path_round_trip(x: RegistrationPath)
    ensures
        registration_path_of(registration_path_code(x)) == Some(x),
{
    reveal_strlit("Facebook");
    assert("Facebook"@.len() == 8 && "Facebook"@[0] == 'F' && "Facebook"@[1] == 'a' && "Facebook"@[2] == 'c' && "Facebook"@[3] == 'e' && "Facebook"@[4] == 'b' && "Facebook"@[5] == 'o' && "Facebook"@[6] == 'o' && "Facebook"@[7] == 'k');
    reveal_strlit("Google");
    assert("Google"@.len() == 6 && "Google"@[0] == 'G' && "Google"@[1] == 'o' && "Google"@[2] == 'o' && "Google"@[3] == 'g' && "Google"@[4] == 'l' && "Google"@[5] == 'e');
    reveal_strlit("email");
    assert("email"@.len() == 5 && "email"@[0] == 'e' && "email"@[1] == 'm' && "email"@[2] == 'a' && "email"@[3] == 'i' && "email"@[4] == 'l');
    reveal_strlit("facebook");
    assert("facebook"@.len() == 8 && "facebook"@[0] == 'f' && "facebook"@[1] == 'a' && "facebook"@[2] == 'c' && "facebook"@[3] == 'e' && "facebook"@[4] == 'b' && "facebook"@[5] == 'o' && "facebook"@[6] == 'o' && "facebook"@[7] == 'k');
    reveal_strlit("google");
    assert("google"@.len() == 6 && "google"@[0] == 'g' && "google"@[1] == 'o' && "google"@[2] == 'o' && "google"@[3] == 'g' && "google"@[4] == 'l' && "google"@[5] == 'e');
    match x {
        RegistrationPath::Email => {},
        RegistrationPath::Facebook => {},
        RegistrationPath::Google => {},
    }
}

/// How a badge is earned.
#[derive(Clone, Copy, Debug, PartialEq, Eq, Hash, Structural)]
pub enum BadgeType {
    WordCount,
    SelfAwarded,
    Participation,
}

/// The value a wire code denotes, if any.
pub open spec fn badge_type_of(v: Seq<char>) -> Option<BadgeType> {
    if lowers_to(v, "word count"@) {
        Some(BadgeType::WordCount)
    } else if lowers_to(v, "self-awarded"@) {
        Some(BadgeType::SelfAwarded)
    } else if lowers_to(v, "participation"@) {
        Some(BadgeType::Participation)
    } else {
        None
    }
}

/// The wire code of a value.
pub open spec fn badge_type_code(x: BadgeType) -> Seq<char> {
    match x {
        BadgeType::WordCount => "word count"@,
        BadgeType::SelfAwarded => "self-awarded"@,
        BadgeType::Participation => "participation"@,
    }
}

impl BadgeType {
    /// Reads a wire code; one that names no value is refused.
    pub fn try_from_wire(v: &str) -> (r: Result<BadgeType, &'static str>)
        ensures
            match r {
                Ok(x) => badge_type_of(v@) == Some(x),
                Err(_) => badge_type_of(v@) is None,
            },
    {
        if lowers_to_word(v, "word count") {
            return Ok(BadgeType::WordCount);
        }
        if lowers_to_word(v, "self-awarded") {
            return Ok(BadgeType::SelfAwarded);
        }
        if lowers_to_word(v, "participation") {
            return Ok(BadgeType::Participation);
        }
        Err("Cannot convert &str into BadgeType")
    }

    /// The wire code of this value.
    pub fn to_wire(self) -> (r: &'static str)
        ensures
            r@ == badge_type_code(self),
    {
        match self {
            BadgeType::WordCount => "word count",
            BadgeType::SelfAwarded => "self-awarded",
            BadgeType::Participation => "participation",
        }
    }
}

/// Reading back the wire code of any BadgeType value gives that value.
pub proof fn lemma_badge_type_round_trip(x: BadgeType)
    ensures
        badge_type_of(badge_type_code(x)) == Some(x),
{
    reveal_strlit("participation");
    assert("participation"@.len() == 13 && "participation"@[0] == 'p' && "participation"@[1] == 'a' && "participation"@[2] == 'r' && "participation"@[3] == 't' && "participation"@[4] == 'i' && "participation"@[5] == 'c' && "participation"@[6] == 'i' && "participation"@[7] == 'p' && "participation"@[8] == 'a' && "participation"@[9] == 't' && "participation"@[10] == 'i' && "participation"@[11] == 'o' && "participation"@[12] == 'n');
    reveal_strlit("self-awarded");
    assert("self-awarded"@.len() == 12 && "self-awarded"@[0] == 's' && "self-awarded"@[1] == 'e' && "self-awarded"@[2] == 'l' && "self-awarded"@[3] == 'f' && "self-awarded"@[4] == '-' && "self-awarded"@[5] == 'a' && "self-awarded"@[6] == 'w' && "self-awarded"@[7] == 'a' && "self-awarded"@[8] == 'r' && "self-awarded"@[9] == 'd' && "self-awarded"@[10] == 'e' && "self-awarded"@[11] == 'd');
    reveal_strlit("word count");
    assert("word count"@.len() == 10 && "word count"@[0] == 'w' && "word count"@[1] == 'o' && "word count"@[2] == 'r' && "word count"@[3] == 'd' && "word count"@[4] == ' ' && "word count"@[5] == 'c' && "word count"@[6] == 'o' && "word count"@[7] == 'u' && "word count"@[8] == 'n' && "word count"@[9] == 't');
    match x {
        BadgeType::WordCount => {},
        BadgeType::SelfAwarded => {},
        BadgeType::Participation => {},
    }
}

/// Who may add members to a group.
#[derive(Clone, Copy, Debug, PartialEq, Eq, Hash, Structural)]
pub enum JoiningRule {
    AdminOnly,
    AnyUser,
}

/// The value a wire code denotes, if any.
pub open spec fn joining_rule_of(v: u8) -> Option<JoiningRule> {
    if v == 0 {
        Some(JoiningRule::AdminOnly)
    } else if v == 1 {
        Some(JoiningRule::AnyUser)
    } else {
        None
    }
}

/// The wire code of a value.
pub open spec fn joining_rule_code(x: JoiningRule) -> u8 {
    match x {
        JoiningRule::AdminOnly => 0,
        JoiningRule::AnyUser => 1,
    }
}

impl JoiningRule {
    /// Reads a wire code; one that names no value is refused.
    pub fn try_from_wire(v: u8) -> (r: Result<JoiningRule, &'static str>)
        ensures
            match r {
                Ok(x) => joining_rule_of(v) == Some(x),
                Err(_) => joining_rule_of(v) is None,
            },
    {
        if v == 0 {
            return Ok(JoiningRule::AdminOnly);
        }
        if v == 1 {
            return Ok(JoiningRule::AnyUser);
        }
        Err("Cannot convert u8 into JoiningRule")
    }

    /// The wire code of this value.
    pub fn to_wire(self) -> (r: u8)
        ensures
            r == joining_rule_code(self),
    {
        match self {
            JoiningRule::AdminOnly => 0,
            JoiningRule::AnyUser => 1,
        }
    }
}

/// Reading back the wire code of any JoiningRule value gives that value.
pub proof fn lemma_joining_rule_round_trip(x: JoiningRule)
    ensures
        joining_rule_of(joining_rule_code(x)) == Some(x),
{
    match x {
        JoiningRule::AdminOnly => {},
        JoiningRule::AnyUser => {},
    }
}

/// The unit a count is kept in.
#[derive(Clone, Copy, Debug, PartialEq, Eq, Hash, Structural)]
pub enum UnitType {
    Words,
    Hours,
}

/// The value a wire code denotes, if any.
pub open spec fn unit_type_of(v: u8) -> Option<UnitType> {
    if v == 0 {
        Some(UnitType::Words)
    } else if v == 1 {
        Some(UnitType::Hours)
    } else {
        None
    }
}

/// The wire code of a value.
pub open spec fn unit_type_code(x: UnitType) -> u8 {
    match x {
        UnitType::Words => 0,
        UnitType::Hours => 1,
    }
}

impl UnitType {
    /// Reads a wire code; one that names no value is refused.
    pub fn try_from_wire(v: u8) -> (r: Result<UnitType, &'static str>)
        ensures
            match r {
                Ok(x) => unit_type_of(v) == Some(x),
                Err(_) => unit_type_of(v) is None,
            },
    {
        if v == 0 {
            return Ok(UnitType::Words);
        }
        if v == 1 {
            return Ok(UnitType::Hours);
        }
        Err("Cannot convert u8 into UnitType")
    }

    /// The wire code of this value.
    pub fn to_wire(self) -> (r: u8)
        ensures
            r == unit_type_code(self),
    {
        match self {
            UnitType::Words => 0,
            UnitType::Hours => 1,
        }
    }
}

/// Reading back the wire code of any UnitType value gives that value.
pub proof fn lemma_unit_type_round_trip(x: UnitType)
    ensures
        unit_type_of(unit_type_code(x)) == Some(x),
{
    match x {
        UnitType::Words => {},
        UnitType::Hours => {},
    }
}

/// What a badge is awarded to.
#[derive(Clone, Copy, Debug, PartialEq, Eq, Hash, Structural)]
pub enum AdheresTo {
    Unknown,
    User,
    ProjectChallenge,
}

/// The value a wire code denotes, if any.
pub open spec fn adheres_to_of(v: Seq<char>) -> Option<AdheresTo> {
    if v == ""@ {
        Some(AdheresTo::Unknown)
    } else if v == "user"@ {
        Some(AdheresTo::User)
    } else if v == "project_challenge"@ {
        Some(AdheresTo::ProjectChallenge)
    } else {
        None
    }
}

/// The wire code of a value.
pub open spec fn adheres_to_code(x: AdheresTo) -> Seq<char> {
    match x {
        AdheresTo::Unknown => ""@,
        AdheresTo::User => "user"@,
        AdheresTo::ProjectChallenge => "project_challenge"@,
    }
}

impl AdheresTo {
    /// Reads a wire code; one that names no value is refused.
    pub fn try_from_wire(v: &str) -> (r: Result<AdheresTo, &'static str>)
        ensures
            match r {
                Ok(x) => adheres_to_of(v@) == Some(x),
                Err(_) => adheres_to_of(v@) is None,
            },
    {
        if same_text(v, "") {
            return Ok(AdheresTo::Unknown);
        }
        if same_text(v, "user") {
            return Ok(AdheresTo::User);
        }
        if same_text(v, "project_challenge") {
            return Ok(AdheresTo::ProjectChallenge);
        }
        Err("Cannot convert &str into AdheresTo")
    }

    /// The wire code of this value.
    pub fn to_wire(self) -> (r: &'static str)
        ensures
            r@ == adheres_to_code(self),
    {
        match self {
            AdheresTo::Unknown => "",
            AdheresTo::User => "user",
            AdheresTo::ProjectChallenge => "project_challenge",
        }
    }
}

/// Reading back the wire code of any AdheresTo value gives that value.
pub proof fn lemma_adheres_to_round_trip(x: AdheresTo)
    ensures
        adheres_to_of(adheres_to_code(x)) == Some(x),
{
    reveal_strlit("");
    assert(""@.len() == 0);
    reveal_strlit("project_challenge");
    assert("project_challenge"@.len() == 17 && "project_challenge"@[0] == 'p' && "project_challenge"@[1] == 'r' && "project_challenge"@[2] == 'o' && "project_challenge"@[3] == 'j' && "project_challenge"@[4] == 'e' && "project_challenge"@[5] == 'c' && "project_challenge"@[6] == 't' && "project_challenge"@[7] == '_' && "project_challenge"@[8] == 'c' && "project_challenge"@[9] == 'h' && "project_challenge"@[10] == 'a' && "project_challenge"@[11] == 'l' && "project_challenge"@[12] == 'l' && "project_challenge"@[13] == 'e' && "project_challenge"@[14] == 'n' && "project_challenge"@[15] == 'g' && "project_challenge"@[16] == 'e');
    reveal_strlit("user");
    assert("user"@.len() == 4 && "user"@[0] == 'u' && "user"@[1] == 's' && "user"@[2] == 'e' && "user"@[3] == 'r');
    match x {
        AdheresTo::Unknown => {},
        AdheresTo::User => {},
        AdheresTo::ProjectChallenge => {},
    }
}

/// How a writing session felt.
#[derive(Clone, Copy, Debug, PartialEq, Eq, Hash, Structural)]
pub enum Feeling {
    Upset,
    Stressed,
    Okay,
    PrettyGood,
    Great,
}

/// The value a wire code denotes, if any.
pub open spec fn feeling_of(v: u8) -> Option<Feeling> {
    if v == 1 {
        Some(Feeling::Upset)
    } else if v == 2 {
        Some(Feeling::Stressed)
    } else if v == 3 {
        Some(Feeling::Okay)
    } else if v == 4 {
        Some(Feeling::PrettyGood)
    } else if v == 5 {
        Some(Feeling::Great)
    } else {
        None
    }
}

/// The wire code of a value.
pub open spec fn feeling_code(x: Feeling) -> u8 {
    match x {
        Feeling::Upset => 1,
        Feeling::Stressed => 2,
        Feeling::Okay => 3,
        Feeling::PrettyGood => 4,
        Feeling::Great => 5,
    }
}

impl Feeling {
    /// Reads a wire code; one that names no value is refused.
    pub fn try_from_wire(v: u8) -> (r: Result<Feeling, &'static str>)
        ensures
            match r {
                Ok(x) => feeling_of(v) == Some(x),
                Err(_) => feeling_of(v) is None,
            },
    {
        if v == 1 {
            return Ok(Feeling::Upset);
        }
        if v == 2 {
            return Ok(Feeling::Stressed);
        }
        if v == 3 {
            return Ok(Feeling::Okay);
        }
        if v == 4 {
            return Ok(Feeling::PrettyGood);
        }
        if v == 5 {
            return Ok(Feeling::Great);
        }
        Err("Cannot convert u8 into Feeling")
    }

    /// The wire code of this value.
    pub fn to_wire(self) -> (r: u8)
        ensures
            r == feeling_code(self),
    {
        match self {
            Feeling::Upset => 1,
            Feeling::Stressed => 2,
            Feeling::Okay => 3,
            Feeling::PrettyGood => 4,
            Feeling::Great => 5,
        }
    }
}

/// Reading back the wire code of any Feeling value gives that value.
pub proof fn lemma_feeling_round_trip(x: Feeling)
    ensures
        feeling_of(feeling_code(x)) == Some(x),
{
    match x {
        Feeling::Upset => {},
        Feeling::Stressed => {},
        Feeling::Okay => {},
        Feeling::PrettyGood => {},
        Feeling::Great => {},
    }
}

/// Where an invitation to a group stands.
#[derive(Clone, Copy, Debug, PartialEq, Eq, Hash, Structural)]
pub enum InvitationStatus {
    Blocked,
    Sent,
    Accepted,
}

/// The value a wire code denotes, if any.
pub open spec fn invitation_status_of(v: i8) -> Option<InvitationStatus> {
    if v == -2i8 {
        Some(InvitationStatus::Blocked)
    } else if v == 0i8 {
        Some(InvitationStatus::Sent)
    } else if v == 1i8 {
        Some(InvitationStatus::Accepted)
    } else {
        None
    }
}

/// The wire code of a value.
pub open spec fn invitation_status_code(x: InvitationStatus) -> i8 {
    match x {
        InvitationStatus::Blocked => -2i8,
        InvitationStatus::Sent => 0i8,
        InvitationStatus::Accepted => 1i8,
    }
}

impl InvitationStatus {
    /// Reads a wire code; one that names no value is refused.
    pub fn try_from_wire(v: i8) -> (r: Result<InvitationStatus, &'static str>)
        ensures
            match r {
                Ok(x) => invitation_status_of(v) == Some(x),
                Err(_) => invitation_status_of(v) is None,
            },
    {
        if v == -2 {
            return Ok(InvitationStatus::Blocked);
        }
        if v == 0 {
            return Ok(InvitationStatus::Sent);
        }
        if v == 1 {
            return Ok(InvitationStatus::Accepted);
        }
        Err("Cannot convert i8 into InvitationStatus")
    }

    /// The wire code of this value.
    pub fn to_wire(self) -> (r: i8)
        ensures
            r == invitation_status_code(self),
    {
        match self {
            InvitationStatus::Blocked => -2,
            InvitationStatus::Sent => 0,
            InvitationStatus::Accepted => 1,
        }
    }
}

/// Reading back the wire code of any InvitationStatus value gives that value.
pub proof fn lemma_invitation_status_round_trip(x: InvitationStatus)
    ensures
        invitation_status_of(invitation_status_code(x)) == Some(x),
{
    match x {
        InvitationStatus::Blocked => {},
        InvitationStatus::Sent => {},
        InvitationStatus::Accepted => {},
    }
}

/// Where a writing session took place; other codes are kept as they are.
#[derive(Clone, Copy, Debug, PartialEq, Eq, Hash, Structural)]
pub enum Where {
    Home,
    Office,
    Library,
    Cafe,
    Other(u8),
}

/// The value a wire code denotes: a named one, or `Other` holding the code.
pub open spec fn where_of(v: u8) -> Where {
    if v == 0 {
        Where::Home
    } else if v == 1 {
        Where::Office
    } else if v == 2 {
        Where::Library
    } else if v == 3 {
        Where::Cafe
    } else {
        Where::Other(v)
    }
}

/// The wire code of a value.
pub open spec fn where_code(x: Where) -> u8 {
    match x {
        Where::Home => 0,
        Where::Office => 1,
        Where::Library => 2,
        Where::Cafe => 3,
        Where::Other(v) => v,
    }
}

impl Where {
    /// Reads a wire code; every code denotes a value.
    pub fn from_wire(v: u8) -> (r: Where)
        ensures
            r == where_of(v),
    {
        match v {
            0 => Where::Home,
            1 => Where::Office,
            2 => Where::Library,
            3 => Where::Cafe,
            _ => Where::Other(v),
        }
    }

    /// The wire code of this value.
    pub fn to_wire(self) -> (r: u8)
        ensures
            r == where_code(self),
    {
        match self {
            Where::Home => 0,
            Where::Office => 1,
            Where::Library => 2,
            Where::Cafe => 3,
            Where::Other(v) => v,
        }
    }
}

/// Every code survives a read followed by a write, and every value whose
/// code no named value claims survives a write followed by a read.
pub proof fn lemma_where_round_trip(v: u8, x: Where)
    ensures
        where_code(where_of(v)) == v,
        !(x matches Where::Other(c) && c <= 3) ==> where_of(where_code(x)) == x,
{
}

/// What a writing session was written with; other codes are kept as they are.
#[derive(Clone, Copy, Debug, PartialEq, Eq, Hash, Structural)]
pub enum How {
    ByHand,
    Typewriter,
    Laptop,
    Phone,
    Other(u64),
}

/// The value a wire code denotes: a named one, or `Other` holding the code.
pub open spec fn how_of(v: u64) -> How {
    if v == 0 {
        How::ByHand
    } else if v == 1 {
        How::Typewriter
    } else if v == 2 {
        How::Laptop
    } else if v == 3 {
        How::Phone
    } else {
        How::Other(v)
    }
}

/// The wire code of a value.
pub open spec fn how_code(x: How) -> u64 {
    match x {
        How::ByHand => 0,
        How::Typewriter => 1,
        How::Laptop => 2,
        How::Phone => 3,
        How::Other(v) => v,
    }
}

impl How {
    /// Reads a wire code; every code denotes a value.
    pub fn from_wire(v: u64) -> (r: How)
        ensures
            r == how_of(v),
    {
        match v {
            0 => How::ByHand,
            1 => How::Typewriter,
            2 => How::Laptop,
            3 => How::Phone,
            _ => How::Other(v),
        }
    }

    /// The wire code of this value.
    pub fn to_wire(self) -> (r: u64)
        ensures
            r == how_code(self),
    {
        match self {
            How::ByHand => 0,
            How::Typewriter => 1,
            How::Laptop => 2,
            How::Phone => 3,
            How::Other(v) => v,
        }
    }
}

/// Every code survives a read followed by a write, and every value whose
/// code no named value claims survives a write followed by a read.
pub proof fn lemma_how_round_trip(v: u64, x: How)
    ensures
        how_code(how_of(v)) == v,
        !(x matches How::Other(c) && c <= 3) ==> how_of(how_code(x)) == x,
{
}

} // verus!
