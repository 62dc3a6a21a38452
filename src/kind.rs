//! The closed catalogue of resource kinds and their two wire names.

use vstd::prelude::*;

use crate::text::same_text;

verus! {

/// Every kind of resource the API serves.
#[derive(Clone, Copy, Debug, PartialEq, Eq, Hash, Structural)]
pub enum NanoKind {
    Badge,
    Challenge,
    DailyAggregate,
    FavoriteAuthor,
    FavoriteBook,
    Genre,
    Group,
    GroupExternalLink,
    Location,
    NanoMessage,
    Notification,
    Page,
    Post,
    Project,
    ProjectSession,
    StopWatch,
    Timer,
    User,
    WritingLocation,
    WritingMethod,
    GroupUser,
    LocationGroup,
    ProjectChallenge,
    UserBadge,
}

/// A wire name that names no kind.
#[derive(Clone, Debug, PartialEq, Eq)]
pub struct UnknownKind {
    pub name: String,
}

/// The plural wire name of a kind: its collection path and its `type` tag.
pub open spec fn plural_name(k: NanoKind) -> Seq<char> {
    match k {
        NanoKind::Badge => "badges"@,
        NanoKind::Challenge => "challenges"@,
        NanoKind::DailyAggregate => "daily-aggregates"@,
        NanoKind::FavoriteAuthor => "favorite-authors"@,
        NanoKind::FavoriteBook => "favorite-books"@,
        NanoKind::Genre => "genres"@,
        NanoKind::Group => "groups"@,
        NanoKind::GroupExternalLink => "group-external-links"@,
        NanoKind::Location => "locations"@,
        NanoKind::NanoMessage => "nanomessages"@,
        NanoKind::Notification => "notifications"@,
        NanoKind::Page => "pages"@,
        NanoKind::Post => "posts"@,
        NanoKind::Project => "projects"@,
        NanoKind::ProjectSession => "project-sessions"@,
        NanoKind::StopWatch => "stopwatches"@,
        NanoKind::Timer => "timers"@,
        NanoKind::User => "users"@,
        NanoKind::WritingLocation => "writing-locations"@,
        NanoKind::WritingMethod => "writing-methods"@,
        NanoKind::GroupUser => "group-users"@,
        NanoKind::LocationGroup => "location-groups"@,
        NanoKind::ProjectChallenge => "project-challenges"@,
        NanoKind::UserBadge => "user-badges"@,
    }
}

/// The singular wire name of a kind, the key of a one-to-one relation.
pub open spec fn unique_name(k: NanoKind) -> Seq<char> {
    match k {
        NanoKind::Badge => "badge"@,
        NanoKind::Challenge => "challenge"@,
        NanoKind::DailyAggregate => "daily-aggregate"@,
        NanoKind::FavoriteAuthor => "favorite-author"@,
        NanoKind::FavoriteBook => "favorite-book"@,
        NanoKind::Genre => "genre"@,
        NanoKind::Group => "group"@,
        NanoKind::GroupExternalLink => "group-external-link"@,
        NanoKind::Location => "location"@,
        NanoKind::NanoMessage => "nanomessage"@,
        NanoKind::Notification => "notification"@,
        NanoKind::Page => "page"@,
        NanoKind::Post => "post"@,
        NanoKind::Project => "project"@,
        NanoKind::ProjectSession => "project-session"@,
        NanoKind::StopWatch => "stopwatch"@,
        NanoKind::Timer => "timer"@,
        NanoKind::User => "user"@,
        NanoKind::WritingLocation => "writing-location"@,
        NanoKind::WritingMethod => "writing-method"@,
        NanoKind::GroupUser => "group-user"@,
        NanoKind::LocationGroup => "location-group"@,
        NanoKind::ProjectChallenge => "project-challenge"@,
        NanoKind::UserBadge => "user-badge"@,
    }
}

/// The kind a wire name denotes, plural or singular.
pub open spec fn kind_of_name(s: Seq<char>) -> Option<NanoKind> {
    if s == "badges"@ || s == "badge"@ {
        Some(NanoKind::Badge)
    } else if s == "challenges"@ || s == "challenge"@ {
        Some(NanoKind::Challenge)
    } else if s == "daily-aggregates"@ || s == "daily-aggregate"@ {
        Some(NanoKind::DailyAggregate)
    } else if s == "favorite-authors"@ || s == "favorite-author"@ {
        Some(NanoKind::FavoriteAuthor)
    } else if s == "favorite-books"@ || s == "favorite-book"@ {
        Some(NanoKind::FavoriteBook)
    } else if s == "genres"@ || s == "genre"@ {
        Some(NanoKind::Genre)
    } else {
        kind_of_name_from_6(s)
    }
}

/// The kind among the last 18 that a wire name denotes.
pub open spec fn kind_of_name_from_6(s: Seq<char>) -> Option<NanoKind> {
    if s == "groups"@ || s == "group"@ {
        Some(NanoKind::Group)
    } else if s == "group-external-links"@ || s == "group-external-link"@ {
        Some(NanoKind::GroupExternalLink)
    } else if s == "locations"@ || s == "location"@ {
        Some(NanoKind::Location)
    } else if s == "nanomessages"@ || s == "nanomessage"@ {
        Some(NanoKind::NanoMessage)
    } else if s == "notifications"@ || s == "notification"@ {
        Some(NanoKind::Notification)
    } else if s == "pages"@ || s == "page"@ {
        Some(NanoKind::Page)
    } else {
        kind_of_name_from_12(s)
    }
}

/// The kind among the last 12 that a wire name denotes.
pub open spec fn kind_of_name_from_12(s: Seq<char>) -> Option<NanoKind> {
    if s == "posts"@ || s == "post"@ {
        Some(NanoKind::Post)
    } else if s == "projects"@ || s == "project"@ {
        Some(NanoKind::Project)
    } else if s == "project-sessions"@ || s == "project-session"@ {
        Some(NanoKind::ProjectSession)
    } else if s == "stopwatches"@ || s == "stopwatch"@ {
        Some(NanoKind::StopWatch)
    } else if s == "timers"@ || s == "timer"@ {
        Some(NanoKind::Timer)
    } else if s == "users"@ || s == "user"@ {
        Some(NanoKind::User)
    } else {
        kind_of_name_from_18(s)
    }
}

/// The kind among the last 6 that a wire name denotes.
pub open spec fn kind_of_name_from_18(s: Seq<char>) -> Option<NanoKind> {
    if s == "writing-locations"@ || s == "writing-location"@ {
        Some(NanoKind::WritingLocation)
    } else if s == "writing-methods"@ || s == "writing-method"@ {
        Some(NanoKind::WritingMethod)
    } else if s == "group-users"@ || s == "group-user"@ {
        Some(NanoKind::GroupUser)
    } else if s == "location-groups"@ || s == "location-group"@ {
        Some(NanoKind::LocationGroup)
    } else if s == "project-challenges"@ || s == "project-challenge"@ {
        Some(NanoKind::ProjectChallenge)
    } else if s == "user-badges"@ || s == "user-badge"@ {
        Some(NanoKind::UserBadge)
    } else {
        None
    }
}

/// The plural and the singular names of every kind are pairwise distinct
/// words, so each names exactly one kind.
pub proof fn lemma_names_round_trip(k: NanoKind)
    ensures
        kind_of_name(plural_name(k)) == Some(k),
        kind_of_name(unique_name(k)) == Some(k),
{
    reveal_strlit("badges");
    assert("badges"@.len() == 6 && "badges"@[0] == 'b' && "badges"@[1] == 'a' && "badges"@[2] == 'd' && "badges"@[3] == 'g' && "badges"@[4] == 'e' && "badges"@[5] == 's');
    reveal_strlit("badge");
    assert("badge"@.len() == 5 && "badge"@[0] == 'b' && "badge"@[1] == 'a' && "badge"@[2] == 'd' && "badge"@[3] == 'g' && "badge"@[4] == 'e');
    reveal_strlit("challenges");
    assert("challenges"@.len() == 10 && "challenges"@[0] == 'c' && "challenges"@[1] == 'h' && "challenges"@[2] == 'a' && "challenges"@[3] == 'l' && "challenges"@[4] == 'l' && "challenges"@[5] == 'e' && "challenges"@[6] == 'n' && "challenges"@[7] == 'g' && "challenges"@[8] == 'e' && "challenges"@[9] == 's');
    reveal_strlit("challenge");
    assert("challenge"@.len() == 9 && "challenge"@[0] == 'c' && "challenge"@[1] == 'h' && "challenge"@[2] == 'a' && "challenge"@[3] == 'l' && "challenge"@[4] == 'l' && "challenge"@[5] == 'e' && "challenge"@[6] == 'n' && "challenge"@[7] == 'g' && "challenge"@[8] == 'e');
    reveal_strlit("daily-aggregates");
    assert("daily-aggregates"@.len() == 16 && "daily-aggregates"@[0] == 'd' && "daily-aggregates"@[1] == 'a' && "daily-aggregates"@[2] == 'i' && "daily-aggregates"@[3] == 'l' && "daily-aggregates"@[4] == 'y' && "daily-aggregates"@[5] == '-' && "daily-aggregates"@[6] == 'a' && "daily-aggregates"@[7] == 'g' && "daily-aggregates"@[8] == 'g' && "daily-aggregates"@[9] == 'r' && "daily-aggregates"@[10] == 'e' && "daily-aggregates"@[11] == 'g' && "daily-aggregates"@[12] == 'a' && "daily-aggregates"@[13] == 't' && "daily-aggregates"@[14] == 'e' && "daily-aggregates"@[15] == 's');
    reveal_strlit("daily-aggregate");
    assert("daily-aggregate"@.len() == 15 && "daily-aggregate"@[0] == 'd' && "daily-aggregate"@[1] == 'a' && "daily-aggregate"@[2] == 'i' && "daily-aggregate"@[3] == 'l' && "daily-aggregate"@[4] == 'y' && "daily-aggregate"@[5] == '-' && "daily-aggregate"@[6] == 'a' && "daily-aggregate"@[7] == 'g' && "daily-aggregate"@[8] == 'g' && "daily-aggregate"@[9] == 'r' && "daily-aggregate"@[10] == 'e' && "daily-aggregate"@[11] == 'g' && "daily-aggregate"@[12] == 'a' && "daily-aggregate"@[13] == 't' && "daily-aggregate"@[14] == 'e');
    reveal_strlit("favorite-authors");
    assert("favorite-authors"@.len() == 16 && "favorite-authors"@[0] == 'f' && "favorite-authors"@[1] == 'a' && "favorite-authors"@[2] == 'v' && "favorite-authors"@[3] == 'o' && "favorite-authors"@[4] == 'r' && "favorite-authors"@[5] == 'i' && "favorite-authors"@[6] == 't' && "favorite-authors"@[7] == 'e' && "favorite-authors"@[8] == '-' && "favorite-authors"@[9] == 'a' && "favorite-authors"@[10] == 'u' && "favorite-authors"@[11] == 't' && "favorite-authors"@[12] == 'h' && "favorite-authors"@[13] == 'o' && "favorite-authors"@[14] == 'r' && "favorite-authors"@[15] == 's');
    reveal_strlit("favorite-author");
    assert("favorite-author"@.len() == 15 && "favorite-author"@[0] == 'f' && "favorite-author"@[1] == 'a' && "favorite-author"@[2] == 'v' && "favorite-author"@[3] == 'o' && "favorite-author"@[4] == 'r' && "favorite-author"@[5] == 'i' && "favorite-author"@[6] == 't' && "favorite-author"@[7] == 'e' && "favorite-author"@[8] == '-' && "favorite-author"@[9] == 'a' && "favorite-author"@[10] == 'u' && "favorite-author"@[11] == 't' && "favorite-author"@[12] == 'h' && "favorite-author"@[13] == 'o' && "favorite-author"@[14] == 'r');
    reveal_strlit("favorite-books");
    assert("favorite-books"@.len() == 14 && "favorite-books"@[0] == 'f' && "favorite-books"@[1] == 'a' && "favorite-books"@[2] == 'v' && "favorite-books"@[3] == 'o' && "favorite-books"@[4] == 'r' && "favorite-books"@[5] == 'i' && "favorite-books"@[6] == 't' && "favorite-books"@[7] == 'e' && "favorite-books"@[8] == '-' && "favorite-books"@[9] == 'b' && "favorite-books"@[10] == 'o' && "favorite-books"@[11] == 'o' && "favorite-books"@[12] == 'k' && "favorite-books"@[13] == 's');
    reveal_strlit("favorite-book");
    assert("favorite-book"@.len() == 13 && "favorite-book"@[0] == 'f' && "favorite-book"@[1] == 'a' && "favorite-book"@[2] == 'v' && "favorite-book"@[3] == 'o' && "favorite-book"@[4] == 'r' && "favorite-book"@[5] == 'i' && "favorite-book"@[6] == 't' && "favorite-book"@[7] == 'e' && "favorite-book"@[8] == '-' && "favorite-book"@[9] == 'b' && "favorite-book"@[10] == 'o' && "favorite-book"@[11] == 'o' && "favorite-book"@[12] == 'k');
    reveal_strlit("genres");
    assert("genres"@.len() == 6 && "genres"@[0] == 'g' && "genres"@[1] == 'e' && "genres"@[2] == 'n' && "genres"@[3] == 'r' && "genres"@[4] == 'e' && "genres"@[5] == 's');
    reveal_strlit("genre");
    assert("genre"@.len() == 5 && "genre"@[0] == 'g' && "genre"@[1] == 'e' && "genre"@[2] == 'n' && "genre"@[3] == 'r' && "genre"@[4] == 'e');
    reveal_strlit("groups");
    assert("groups"@.len() == 6 && "groups"@[0] == 'g' && "groups"@[1] == 'r' && "groups"@[2] == 'o' && "groups"@[3] == 'u' && "groups"@[4] == 'p' && "groups"@[5] == 's');
    reveal_strlit("group");
    assert("group"@.len() == 5 && "group"@[0] == 'g' && "group"@[1] == 'r' && "group"@[2] == 'o' && "group"@[3] == 'u' && "group"@[4] == 'p');
    reveal_strlit("group-external-links");
    assert("group-external-links"@.len() == 20 && "group-external-links"@[0] == 'g' && "group-external-links"@[1] == 'r' && "group-external-links"@[2] == 'o' && "group-external-links"@[3] == 'u' && "group-external-links"@[4] == 'p' && "group-external-links"@[5] == '-' && "group-external-links"@[6] == 'e' && "group-external-links"@[7] == 'x' && "group-external-links"@[8] == 't' && "group-external-links"@[9] == 'e' && "group-external-links"@[10] == 'r' && "group-external-links"@[11] == 'n' && "group-external-links"@[12] == 'a' && "group-external-links"@[13] == 'l' && "group-external-links"@[14] == '-' && "group-external-links"@[15] == 'l' && "group-external-links"@[16] == 'i' && "group-external-links"@[17] == 'n' && "group-external-links"@[18] == 'k' && "group-external-links"@[19] == 's');
    reveal_strlit("group-external-link");
    assert("group-external-link"@.len() == 19 && "group-external-link"@[0] == 'g' && "group-external-link"@[1] == 'r' && "group-external-link"@[2] == 'o' && "group-external-link"@[3] == 'u' && "group-external-link"@[4] == 'p' && "group-external-link"@[5] == '-' && "group-external-link"@[6] == 'e' && "group-external-link"@[7] == 'x' && "group-external-link"@[8] == 't' && "group-external-link"@[9] == 'e' && "group-external-link"@[10] == 'r' && "group-external-link"@[11] == 'n' && "group-external-link"@[12] == 'a' && "group-external-link"@[13] == 'l' && "group-external-link"@[14] == '-' && "group-external-link"@[15] == 'l' && "group-external-link"@[16] == 'i' && "group-external-link"@[17] == 'n' && "group-external-link"@[18] == 'k');
    reveal_strlit("locations");
    assert("locations"@.len() == 9 && "locations"@[0] == 'l' && "locations"@[1] == 'o' && "locations"@[2] == 'c' && "locations"@[3] == 'a' && "locations"@[4] == 't' && "locations"@[5] == 'i' && "locations"@[6] == 'o' && "locations"@[7] == 'n' && "locations"@[8] == 's');
    reveal_strlit("location");
    assert("location"@.len() == 8 && "location"@[0] == 'l' && "location"@[1] == 'o' && "location"@[2] == 'c' && "location"@[3] == 'a' && "location"@[4] == 't' && "location"@[5] == 'i' && "location"@[6] == 'o' && "location"@[7] == 'n');
    reveal_strlit("nanomessages");
    assert("nanomessages"@.len() == 12 && "nanomessages"@[0] == 'n' && "nanomessages"@[1] == 'a' && "nanomessages"@[2] == 'n' && "nanomessages"@[3] == 'o' && "nanomessages"@[4] == 'm' && "nanomessages"@[5] == 'e' && "nanomessages"@[6] == 's' && "nanomessages"@[7] == 's' && "nanomessages"@[8] == 'a' && "nanomessages"@[9] == 'g' && "nanomessages"@[10] == 'e' && "nanomessages"@[11] == 's');
    reveal_strlit("nanomessage");
    assert("nanomessage"@.len() == 11 && "nanomessage"@[0] == 'n' && "nanomessage"@[1] == 'a' && "nanomessage"@[2] == 'n' && "nanomessage"@[3] == 'o' && "nanomessage"@[4] == 'm' && "nanomessage"@[5] == 'e' && "nanomessage"@[6] == 's' && "nanomessage"@[7] == 's' && "nanomessage"@[8] == 'a' && "nanomessage"@[9] == 'g' && "nanomessage"@[10] == 'e');
    reveal_strlit("notifications");
    assert("notifications"@.len() == 13 && "notifications"@[0] == 'n' && "notifications"@[1] == 'o' && "notifications"@[2] == 't' && "notifications"@[3] == 'i' && "notifications"@[4] == 'f' && "notifications"@[5] == 'i' && "notifications"@[6] == 'c' && "notifications"@[7] == 'a' && "notifications"@[8] == 't' && "notifications"@[9] == 'i' && "notifications"@[10] == 'o' && "notifications"@[11] == 'n' && "notifications"@[12] == 's');
    reveal_strlit("notification");
    assert("notification"@.len() == 12 && "notification"@[0] == 'n' && "notification"@[1] == 'o' && "notification"@[2] == 't' && "notification"@[3] == 'i' && "notification"@[4] == 'f' && "notification"@[5] == 'i' && "notification"@[6] == 'c' && "notification"@[7] == 'a' && "notification"@[8] == 't' && "notification"@[9] == 'i' && "notification"@[10] == 'o' && "notification"@[11] == 'n');
    reveal_strlit("pages");
    assert("pages"@.len() == 5 && "pages"@[0] == 'p' && "pages"@[1] == 'a' && "pages"@[2] == 'g' && "pages"@[3] == 'e' && "pages"@[4] == 's');
    reveal_strlit("page");
    assert("page"@.len() == 4 && "page"@[0] == 'p' && "page"@[1] == 'a' && "page"@[2] == 'g' && "page"@[3] == 'e');
    reveal_strlit("posts");
    assert("posts"@.len() == 5 && "posts"@[0] == 'p' && "posts"@[1] == 'o' && "posts"@[2] == 's' && "posts"@[3] == 't' && "posts"@[4] == 's');
    reveal_strlit("post");
    assert("post"@.len() == 4 && "post"@[0] == 'p' && "post"@[1] == 'o' && "post"@[2] == 's' && "post"@[3] == 't');
    reveal_strlit("projects");
    assert("projects"@.len() == 8 && "projects"@[0] == 'p' && "projects"@[1] == 'r' && "projects"@[2] == 'o' && "projects"@[3] == 'j' && "projects"@[4] == 'e' && "projects"@[5] == 'c' && "projects"@[6] == 't' && "projects"@[7] == 's');
    reveal_strlit("project");
    assert("project"@.len() == 7 && "project"@[0] == 'p' && "project"@[1] == 'r' && "project"@[2] == 'o' && "project"@[3] == 'j' && "project"@[4] == 'e' && "project"@[5] == 'c' && "project"@[6] == 't');
    reveal_strlit("project-sessions");
    assert("project-sessions"@.len() == 16 && "project-sessions"@[0] == 'p' && "project-sessions"@[1] == 'r' && "project-sessions"@[2] == 'o' && "project-sessions"@[3] == 'j' && "project-sessions"@[4] == 'e' && "project-sessions"@[5] == 'c' && "project-sessions"@[6] == 't' && "project-sessions"@[7] == '-' && "project-sessions"@[8] == 's' && "project-sessions"@[9] == 'e' && "project-sessions"@[10] == 's' && "project-sessions"@[11] == 's' && "project-sessions"@[12] == 'i' && "project-sessions"@[13] == 'o' && "project-sessions"@[14] == 'n' && "project-sessions"@[15] == 's');
    reveal_strlit("project-session");
    assert("project-session"@.len() == 15 && "project-session"@[0] == 'p' && "project-session"@[1] == 'r' && "project-session"@[2] == 'o' && "project-session"@[3] == 'j' && "project-session"@[4] == 'e' && "project-session"@[5] == 'c' && "project-session"@[6] == 't' && "project-session"@[7] == '-' && "project-session"@[8] == 's' && "project-session"@[9] == 'e' && "project-session"@[10] == 's' && "project-session"@[11] == 's' && "project-session"@[12] == 'i' && "project-session"@[13] == 'o' && "project-session"@[14] == 'n');
    reveal_strlit("stopwatches");
    assert("stopwatches"@.len() == 11 && "stopwatches"@[0] == 's' && "stopwatches"@[1] == 't' && "stopwatches"@[2] == 'o' && "stopwatches"@[3] == 'p' && "stopwatches"@[4] == 'w' && "stopwatches"@[5] == 'a' && "stopwatches"@[6] == 't' && "stopwatches"@[7] == 'c' && "stopwatches"@[8] == 'h' && "stopwatches"@[9] == 'e');
    reveal_strlit("stopwatch");
    assert("stopwatch"@.len() == 9 && "stopwatch"@[0] == 's' && "stopwatch"@[1] == 't' && "stopwatch"@[2] == 'o' && "stopwatch"@[3] == 'p' && "stopwatch"@[4] == 'w' && "stopwatch"@[5] == 'a' && "stopwatch"@[6] == 't' && "stopwatch"@[7] == 'c' && "stopwatch"@[8] == 'h');
    reveal_strlit("timers");
    assert("timers"@.len() == 6 && "timers"@[0] == 't' && "timers"@[1] == 'i' && "timers"@[2] == 'm' && "timers"@[3] == 'e' && "timers"@[4] == 'r' && "timers"@[5] == 's');
    reveal_strlit("timer");
    assert("timer"@.len() == 5 && "timer"@[0] == 't' && "timer"@[1] == 'i' && "timer"@[2] == 'm' && "timer"@[3] == 'e' && "timer"@[4] == 'r');
    reveal_strlit("users");
    assert("users"@.len() == 5 && "users"@[0] == 'u' && "users"@[1] == 's' && "users"@[2] == 'e' && "users"@[3] == 'r' && "users"@[4] == 's');
    reveal_strlit("user");
    assert("user"@.len() == 4 && "user"@[0] == 'u' && "user"@[1] == 's' && "user"@[2] == 'e' && "user"@[3] == 'r');
    reveal_strlit("writing-locations");
    assert("writing-locations"@.len() == 17 && "writing-locations"@[0] == 'w' && "writing-locations"@[1] == 'r' && "writing-locations"@[2] == 'i' && "writing-locations"@[3] == 't' && "writing-locations"@[4] == 'i' && "writing-locations"@[5] == 'n' && "writing-locations"@[6] == 'g' && "writing-locations"@[7] == '-' && "writing-locations"@[8] == 'l' && "writing-locations"@[9] == 'o' && "writing-locations"@[10] == 'c' && "writing-locations"@[11] == 'a' && "writing-locations"@[12] == 't' && "writing-locations"@[13] == 'i' && "writing-locations"@[14] == 'o' && "writing-locations"@[15] == 'n' && "writing-locations"@[16] == 's');
    reveal_strlit("writing-location");
    assert("writing-location"@.len() == 16 && "writing-location"@[0] == 'w' && "writing-location"@[1] == 'r' && "writing-location"@[2] == 'i' && "writing-location"@[3] == 't' && "writing-location"@[4] == 'i' && "writing-location"@[5] == 'n' && "writing-location"@[6] == 'g' && "writing-location"@[7] == '-' && "writing-location"@[8] == 'l' && "writing-location"@[9] == 'o' && "writing-location"@[10] == 'c' && "writing-location"@[11] == 'a' && "writing-location"@[12] == 't' && "writing-location"@[13] == 'i' && "writing-location"@[14] == 'o' && "writing-location"@[15] == 'n');
    reveal_strlit("writing-methods");
    assert("writing-methods"@.len() == 15 && "writing-methods"@[0] == 'w' && "writing-methods"@[1] == 'r' && "writing-methods"@[2] == 'i' && "writing-methods"@[3] == 't' && "writing-methods"@[4] == 'i' && "writing-methods"@[5] == 'n' && "writing-methods"@[6] == 'g' && "writing-methods"@[7] == '-' && "writing-methods"@[8] == 'm' && "writing-methods"@[9] == 'e' && "writing-methods"@[10] == 't' && "writing-methods"@[11] == 'h' && "writing-methods"@[12] == 'o' && "writing-methods"@[13] == 'd' && "writing-methods"@[14] == 's');
    reveal_strlit("writing-method");
    assert("writing-method"@.len() == 14 && "writing-method"@[0] == 'w' && "writing-method"@[1] == 'r' && "writing-method"@[2] == 'i' && "writing-method"@[3] == 't' && "writing-method"@[4] == 'i' && "writing-method"@[5] == 'n' && "writing-method"@[6] == 'g' && "writing-method"@[7] == '-' && "writing-method"@[8] == 'm' && "writing-method"@[9] == 'e' && "writing-method"@[10] == 't' && "writing-method"@[11] == 'h' && "writing-method"@[12] == 'o' && "writing-method"@[13] == 'd');
    reveal_strlit("group-users");
    assert("group-users"@.len() == 11 && "group-users"@[0] == 'g' && "group-users"@[1] == 'r' && "group-users"@[2] == 'o' && "group-users"@[3] == 'u' && "group-users"@[4] == 'p' && "group-users"@[5] == '-' && "group-users"@[6] == 'u' && "group-users"@[7] == 's' && "group-users"@[8] == 'e' && "group-users"@[9] == 'r' && "group-users"@[10] == 's');
    reveal_strlit("group-user");
    assert("group-user"@.len() == 10 && "group-user"@[0] == 'g' && "group-user"@[1] == 'r' && "group-user"@[2] == 'o' && "group-user"@[3] == 'u' && "group-user"@[4] == 'p' && "group-user"@[5] == '-' && "group-user"@[6] == 'u' && "group-user"@[7] == 's' && "group-user"@[8] == 'e' && "group-user"@[9] == 'r');
    reveal_strlit("location-groups");
    assert("location-groups"@.len() == 15 && "location-groups"@[0] == 'l' && "location-groups"@[1] == 'o' && "location-groups"@[2] == 'c' && "location-groups"@[3] == 'a' && "location-groups"@[4] == 't' && "location-groups"@[5] == 'i' && "location-groups"@[6] == 'o' && "location-groups"@[7] == 'n' && "location-groups"@[8] == '-' && "location-groups"@[9] == 'g' && "location-groups"@[10] == 'r' && "location-groups"@[11] == 'o' && "location-groups"@[12] == 'u' && "location-groups"@[13] == 'p' && "location-groups"@[14] == 's');
    reveal_strlit("location-group");
    assert("location-group"@.len() == 14 && "location-group"@[0] == 'l' && "location-group"@[1] == 'o' && "location-group"@[2] == 'c' && "location-group"@[3] == 'a' && "location-group"@[4] == 't' && "location-group"@[5] == 'i' && "location-group"@[6] == 'o' && "location-group"@[7] == 'n' && "location-group"@[8] == '-' && "location-group"@[9] == 'g' && "location-group"@[10] == 'r' && "location-group"@[11] == 'o' && "location-group"@[12] == 'u' && "location-group"@[13] == 'p');
    reveal_strlit("project-challenges");
    assert("project-challenges"@.len() == 18 && "project-challenges"@[0] == 'p' && "project-challenges"@[1] == 'r' && "project-challenges"@[2] == 'o' && "project-challenges"@[3] == 'j' && "project-challenges"@[4] == 'e' && "project-challenges"@[5] == 'c' && "project-challenges"@[6] == 't' && "project-challenges"@[7] == '-' && "project-challenges"@[8] == 'c' && "project-challenges"@[9] == 'h' && "project-challenges"@[10] == 'a' && "project-challenges"@[11] == 'l' && "project-challenges"@[12] == 'l' && "project-challenges"@[13] == 'e' && "project-challenges"@[14] == 'n' && "project-challenges"@[15] == 'g' && "project-challenges"@[16] == 'e' && "project-challenges"@[17] == 's');
    reveal_strlit("project-challenge");
    assert("project-challenge"@.len() == 17 && "project-challenge"@[0] == 'p' && "project-challenge"@[1] == 'r' && "project-challenge"@[2] == 'o' && "project-challenge"@[3] == 'j' && "project-challenge"@[4] == 'e' && "project-challenge"@[5] == 'c' && "project-challenge"@[6] == 't' && "project-challenge"@[7] == '-' && "project-challenge"@[8] == 'c' && "project-challenge"@[9] == 'h' && "project-challenge"@[10] == 'a' && "project-challenge"@[11] == 'l' && "project-challenge"@[12] == 'l' && "project-challenge"@[13] == 'e' && "project-challenge"@[14] == 'n' && "project-challenge"@[15] == 'g' && "project-challenge"@[16] == 'e');
    reveal_strlit("user-badges");
    assert("user-badges"@.len() == 11 && "user-badges"@[0] == 'u' && "user-badges"@[1] == 's' && "user-badges"@[2] == 'e' && "user-badges"@[3] == 'r' && "user-badges"@[4] == '-' && "user-badges"@[5] == 'b' && "user-badges"@[6] == 'a' && "user-badges"@[7] == 'd' && "user-badges"@[8] == 'g' && "user-badges"@[9] == 'e' && "user-badges"@[10] == 's');
    reveal_strlit("user-badge");
    assert("user-badge"@.len() == 10 && "user-badge"@[0] == 'u' && "user-badge"@[1] == 's' && "user-badge"@[2] == 'e' && "user-badge"@[3] == 'r' && "user-badge"@[4] == '-' && "user-badge"@[5] == 'b' && "user-badge"@[6] == 'a' && "user-badge"@[7] == 'd' && "user-badge"@[8] == 'g' && "user-badge"@[9] == 'e');
}

impl NanoKind {
    /// The plural wire name, used in paths, `type` tags and `include=` lists.
    pub fn api_name(&self) -> (r: &'static str)
        ensures
            r@ == plural_name(*self),
    {
        match self {
            NanoKind::Badge => "badges",
            NanoKind::Challenge => "challenges",
            NanoKind::DailyAggregate => "daily-aggregates",
            NanoKind::FavoriteAuthor => "favorite-authors",
            NanoKind::FavoriteBook => "favorite-books",
            NanoKind::Genre => "genres",
            NanoKind::Group => "groups",
            NanoKind::GroupExternalLink => "group-external-links",
            NanoKind::Location => "locations",
            NanoKind::NanoMessage => "nanomessages",
            NanoKind::Notification => "notifications",
            NanoKind::Page => "pages",
            NanoKind::Post => "posts",
            NanoKind::Project => "projects",
            NanoKind::ProjectSession => "project-sessions",
            NanoKind::StopWatch => "stopwatches",
            NanoKind::Timer => "timers",
            NanoKind::User => "users",
            NanoKind::WritingLocation => "writing-locations",
            NanoKind::WritingMethod => "writing-methods",
            NanoKind::GroupUser => "group-users",
            NanoKind::LocationGroup => "location-groups",
            NanoKind::ProjectChallenge => "project-challenges",
            NanoKind::UserBadge => "user-badges",
        }
    }

    /// The singular wire name, used as the key of a one-to-one relation.
    pub fn api_unique_name(&self) -> (r: &'static str)
        ensures
            r@ == unique_name(*self),
    {
        match self {
            NanoKind::Badge => "badge",
            NanoKind::Challenge => "challenge",
            NanoKind::DailyAggregate => "daily-aggregate",
            NanoKind::FavoriteAuthor => "favorite-author",
            NanoKind::FavoriteBook => "favorite-book",
            NanoKind::Genre => "genre",
            NanoKind::Group => "group",
            NanoKind::GroupExternalLink => "group-external-link",
            NanoKind::Location => "location",
            NanoKind::NanoMessage => "nanomessage",
            NanoKind::Notification => "notification",
            NanoKind::Page => "page",
            NanoKind::Post => "post",
            NanoKind::Project => "project",
            NanoKind::ProjectSession => "project-session",
            NanoKind::StopWatch => "stopwatch",
            NanoKind::Timer => "timer",
            NanoKind::User => "user",
            NanoKind::WritingLocation => "writing-location",
            NanoKind::WritingMethod => "writing-method",
            NanoKind::GroupUser => "group-user",
            NanoKind::LocationGroup => "location-group",
            NanoKind::ProjectChallenge => "project-challenge",
            NanoKind::UserBadge => "user-badge",
        }
    }

    /// The kind named by a plural or singular wire name; any other word is refused.
    pub fn from_name(name: &str) -> (r: Result<NanoKind, UnknownKind>)
        ensures
            match r {
                Ok(k) => kind_of_name(name@) == Some(k),
                Err(e) => kind_of_name(name@) is None && e.name@ == name@,
            },
    {
        if same_text(name, "badges") || same_text(name, "badge") {
            return Ok(NanoKind::Badge);
        }
        if same_text(name, "challenges") || same_text(name, "challenge") {
            return Ok(NanoKind::Challenge);
        }
        if same_text(name, "daily-aggregates") || same_text(name, "daily-aggregate") {
            return Ok(NanoKind::DailyAggregate);
        }
        if same_text(name, "favorite-authors") || same_text(name, "favorite-author") {
            return Ok(NanoKind::FavoriteAuthor);
        }
        if same_text(name, "favorite-books") || same_text(name, "favorite-book") {
            return Ok(NanoKind::FavoriteBook);
        }
        if same_text(name, "genres") || same_text(name, "genre") {
            return Ok(NanoKind::Genre);
        }
        if same_text(name, "groups") || same_text(name, "group") {
            return Ok(NanoKind::Group);
        }
        if same_text(name, "group-external-links") || same_text(name, "group-external-link") {
            return Ok(NanoKind::GroupExternalLink);
        }
        if same_text(name, "locations") || same_text(name, "location") {
            return Ok(NanoKind::Location);
        }
        if same_text(name, "nanomessages") || same_text(name, "nanomessage") {
            return Ok(NanoKind::NanoMessage);
        }
        if same_text(name, "notifications") || same_text(name, "notification") {
            return Ok(NanoKind::Notification);
        }
        if same_text(name, "pages") || same_text(name, "page") {
            return Ok(NanoKind::Page);
        }
        if same_text(name, "posts") || same_text(name, "post") {
            return Ok(NanoKind::Post);
        }
        if same_text(name, "projects") || same_text(name, "project") {
            return Ok(NanoKind::Project);
        }
        if same_text(name, "project-sessions") || same_text(name, "project-session") {
            return Ok(NanoKind::ProjectSession);
        }
        if same_text(name, "stopwatches") || same_text(name, "stopwatch") {
            return Ok(NanoKind::StopWatch);
        }
        if same_text(name, "timers") || same_text(name, "timer") {
            return Ok(NanoKind::Timer);
        }
        if same_text(name, "users") || same_text(name, "user") {
            return Ok(NanoKind::User);
        }
        if same_text(name, "writing-locations") || same_text(name, "writing-location") {
            return Ok(NanoKind::WritingLocation);
        }
        if same_text(name, "writing-methods") || same_text(name, "writing-method") {
            return Ok(NanoKind::WritingMethod);
        }
        if same_text(name, "group-users") || same_text(name, "group-user") {
            return Ok(NanoKind::GroupUser);
        }
        if same_text(name, "location-groups") || same_text(name, "location-group") {
            return Ok(NanoKind::LocationGroup);
        }
        if same_text(name, "project-challenges") || same_text(name, "project-challenge") {
            return Ok(NanoKind::ProjectChallenge);
        }
        if same_text(name, "user-badges") || same_text(name, "user-badge") {
            return Ok(NanoKind::UserBadge);
        }
        Err(UnknownKind { name: String::from_str(name) })
    }
}

} // verus!
