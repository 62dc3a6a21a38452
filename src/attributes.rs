//! The attributes of each kind of resource, with their strict wire codecs.

use vstd::prelude::*;

use crate::codec::{
    DecodeCause,
    DecodeError,
    action_type_json,
    adheres_to_json,
    admin_level_json,
    badge_type_json,
    bool_json,
    content_type_json,
    date_json,
    display_status_json,
    entry_method_json,
    error_at,
    event_type_json,
    field_action_type,
    field_adheres_to,
    field_admin_level,
    field_badge_type,
    field_bool,
    field_content_type,
    field_date,
    field_display_status,
    field_entry_method,
    field_event_type,
    field_group_type,
    field_i64,
    field_invitation_status,
    field_minutes,
    field_number,
    field_privacy_setting,
    field_project_status,
    field_registration_path,
    field_str,
    field_timestamp,
    field_u64,
    field_u8,
    field_unit_type,
    field_writing_type,
    group_type_json,
    i64_json,
    invitation_status_json,
    json_action_type,
    json_adheres_to,
    json_admin_level,
    json_badge_type,
    json_bool,
    json_content_type,
    json_date,
    json_display_status,
    json_entry_method,
    json_event_type,
    json_feeling,
    json_group_type,
    json_how,
    json_i64,
    json_invitation_status,
    json_joining_rule,
    json_minutes,
    json_number,
    json_privacy_setting,
    json_project_status,
    json_registration_path,
    json_str,
    json_str_u64,
    json_timestamp,
    json_u64,
    json_u8,
    json_unit_type,
    json_where,
    json_writing_type,
    minutes_json,
    number_json,
    opt_bool_json,
    opt_date_json,
    opt_event_type_json,
    opt_feeling_json,
    opt_field_bool,
    opt_field_date,
    opt_field_event_type,
    opt_field_feeling,
    opt_field_how,
    opt_field_i64,
    opt_field_joining_rule,
    opt_field_number,
    opt_field_str,
    opt_field_timestamp,
    opt_field_u64,
    opt_field_where,
    opt_field_writing_type,
    opt_how_json,
    opt_i64_json,
    opt_joining_rule_json,
    opt_number_json,
    opt_str_json,
    opt_str_u64_json,
    opt_timestamp_json,
    opt_u64_json,
    opt_where_json,
    opt_writing_type_json,
    privacy_setting_json,
    project_status_json,
    registration_path_json,
    str_json,
    timestamp_json,
    u64_json,
    u8_json,
    unit_type_json,
    value_str_u64,
    writes_action_type,
    writes_adheres_to,
    writes_badge_type,
    writes_bool,
    writes_content_type,
    writes_date,
    writes_display_status,
    writes_entry_method,
    writes_event_type,
    writes_feeling,
    writes_group_type,
    writes_how,
    writes_i64,
    writes_invitation_status,
    writes_joining_rule,
    writes_minutes,
    writes_number,
    writes_privacy_setting,
    writes_project_status,
    writes_str,
    writes_str_u64,
    writes_timestamp,
    writes_u64,
    writes_unit_type,
    writes_where,
    writes_writing_type,
    writing_type_json,
};
use crate::enums::{
    ActionType,
    AdheresTo,
    AdminLevel,
    BadgeType,
    ContentType,
    DisplayStatus,
    EntryMethod,
    EventType,
    Feeling,
    GroupType,
    How,
    InvitationStatus,
    JoiningRule,
    PrivacySetting,
    ProjectStatus,
    RegistrationPath,
    UnitType,
    Where,
    WritingType,
};
use crate::json::{get_field, is_one_of, keys_within, lookup, Json};
use crate::relation::{check_keys, not_an_object};
use crate::time::{Date, Minutes, Timestamp};

verus! {

/// Reads a field that must be present and should hold a numeral in a string;
/// any other value is read as `None`.
pub fn field_lenient_u64(o: &Vec<(String, Json)>, key: &str) -> (r: Result<Option<u64>, DecodeError>)
    ensures
        r is Ok <==> lookup(o@, key@) is Some,
        r matches Ok(v) ==> (lookup(o@, key@) matches Some(j) && v == json_str_u64(j)),
        r matches Err(e) ==> e.path@.len() == 1 && e.path@[0]@ == key@,
{
    match get_field(o, key) {
        Some(j) => match value_str_u64(j) {
            Ok(n) => Ok(Some(n)),
            Err(_) => Ok(None),
        },
        None => Err(error_at(key, DecodeCause::MissingField)),
    }
}

/// Which e-mails a user receives; keys prefixed `email-`.
#[derive(Clone, Debug, PartialEq)]
pub struct EmailSettings {
    pub blog_posts: bool,
    pub buddy_requests: bool,
    pub events_in_home_region: bool,
    pub nanomessages_buddies: bool,
    pub nanomessages_hq: bool,
    pub nanomessages_mls: bool,
    pub nanowrimo_updates: bool,
    pub newsletter: bool,
    pub writing_reminders: bool,
}

/// Whether each plain field of `d` is what the entries hold under its key.
pub open spec fn email_settings_read_from(o: Seq<(String, Json)>, d: EmailSettings) -> bool {
    &&& (lookup(o, "email-blog-posts"@) matches Some(j) && json_bool(j) == Some(d.blog_posts))
    &&& (lookup(o, "email-buddy-requests"@) matches Some(j) && json_bool(j) == Some(d.buddy_requests))
    &&& (lookup(o, "email-events-in-home-region"@) matches Some(j) && json_bool(j) == Some(d.events_in_home_region))
    &&& (lookup(o, "email-nanomessages-buddies"@) matches Some(j) && json_bool(j) == Some(d.nanomessages_buddies))
    &&& (lookup(o, "email-nanomessages-hq"@) matches Some(j) && json_bool(j) == Some(d.nanomessages_hq))
    &&& (lookup(o, "email-nanomessages-mls"@) matches Some(j) && json_bool(j) == Some(d.nanomessages_mls))
    &&& (lookup(o, "email-nanowrimo-updates"@) matches Some(j) && json_bool(j) == Some(d.nanowrimo_updates))
    &&& (lookup(o, "email-newsletter"@) matches Some(j) && json_bool(j) == Some(d.newsletter))
    &&& (lookup(o, "email-writing-reminders"@) matches Some(j) && json_bool(j) == Some(d.writing_reminders))
}

/// Whether every field can be read from the entries.
pub open spec fn email_settings_fields_ok(o: Seq<(String, Json)>) -> bool {
    &&& (lookup(o, "email-blog-posts"@) matches Some(j) && json_bool(j) is Some)
    &&& (lookup(o, "email-buddy-requests"@) matches Some(j) && json_bool(j) is Some)
    &&& (lookup(o, "email-events-in-home-region"@) matches Some(j) && json_bool(j) is Some)
    &&& (lookup(o, "email-nanomessages-buddies"@) matches Some(j) && json_bool(j) is Some)
    &&& (lookup(o, "email-nanomessages-hq"@) matches Some(j) && json_bool(j) is Some)
    &&& (lookup(o, "email-nanomessages-mls"@) matches Some(j) && json_bool(j) is Some)
    &&& (lookup(o, "email-nanowrimo-updates"@) matches Some(j) && json_bool(j) is Some)
    &&& (lookup(o, "email-newsletter"@) matches Some(j) && json_bool(j) is Some)
    &&& (lookup(o, "email-writing-reminders"@) matches Some(j) && json_bool(j) is Some)
}

impl EmailSettings {
    /// Reads the fields from an object's entries; keys of other fields are ignored.
    fn from_fields(o: &Vec<(String, Json)>) -> (r: Result<EmailSettings, DecodeError>)
        ensures
            r matches Ok(d) ==> email_settings_read_from(o@, d),
            email_settings_fields_ok(o@) <==> r is Ok,
    {
        let blog_posts = field_bool(o, "email-blog-posts")?;
        let buddy_requests = field_bool(o, "email-buddy-requests")?;
        let events_in_home_region = field_bool(o, "email-events-in-home-region")?;
        let nanomessages_buddies = field_bool(o, "email-nanomessages-buddies")?;
        let nanomessages_hq = field_bool(o, "email-nanomessages-hq")?;
        let nanomessages_mls = field_bool(o, "email-nanomessages-mls")?;
        let nanowrimo_updates = field_bool(o, "email-nanowrimo-updates")?;
        let newsletter = field_bool(o, "email-newsletter")?;
        let writing_reminders = field_bool(o, "email-writing-reminders")?;
        Ok(EmailSettings { blog_posts, buddy_requests, events_in_home_region, nanomessages_buddies, nanomessages_hq, nanomessages_mls, nanowrimo_updates, newsletter, writing_reminders })
    }

    /// Appends the fields to an object's entries, in declaration order.
    fn push_fields(&self, e: &mut Vec<(String, Json)>) {
        e.push((String::from_str("email-blog-posts"), bool_json(&self.blog_posts)));
        e.push((String::from_str("email-buddy-requests"), bool_json(&self.buddy_requests)));
        e.push((String::from_str("email-events-in-home-region"), bool_json(&self.events_in_home_region)));
        e.push((String::from_str("email-nanomessages-buddies"), bool_json(&self.nanomessages_buddies)));
        e.push((String::from_str("email-nanomessages-hq"), bool_json(&self.nanomessages_hq)));
        e.push((String::from_str("email-nanomessages-mls"), bool_json(&self.nanomessages_mls)));
        e.push((String::from_str("email-nanowrimo-updates"), bool_json(&self.nanowrimo_updates)));
        e.push((String::from_str("email-newsletter"), bool_json(&self.newsletter)));
        e.push((String::from_str("email-writing-reminders"), bool_json(&self.writing_reminders)));
    }

}

/// Which notifications a user receives; keys prefixed `notification-`.
#[derive(Clone, Debug, PartialEq)]
pub struct NotificationSettings {
    pub buddy_activities: bool,
    pub buddy_requests: bool,
    pub events_in_home_region: bool,
    pub goal_milestones: bool,
    pub nanomessages_buddies: bool,
    pub nanomessages_hq: bool,
    pub nanomessages_mls: bool,
    pub new_badges: bool,
    pub sprint_invitation: bool,
    pub sprint_start: bool,
    pub writing_reminders: bool,
}

/// Whether each plain field of `d` is what the entries hold under its key.
pub open spec fn notification_settings_read_from(o: Seq<(String, Json)>, d: NotificationSettings) -> bool {
    &&& (lookup(o, "notification-buddy-activities"@) matches Some(j) && json_bool(j) == Some(d.buddy_activities))
    &&& (lookup(o, "notification-buddy-requests"@) matches Some(j) && json_bool(j) == Some(d.buddy_requests))
    &&& (lookup(o, "notification-events-in-home-region"@) matches Some(j) && json_bool(j) == Some(d.events_in_home_region))
    &&& (lookup(o, "notification-goal-milestones"@) matches Some(j) && json_bool(j) == Some(d.goal_milestones))
    &&& (lookup(o, "notification-nanomessages-buddies"@) matches Some(j) && json_bool(j) == Some(d.nanomessages_buddies))
    &&& (lookup(o, "notification-nanomessages-hq"@) matches Some(j) && json_bool(j) == Some(d.nanomessages_hq))
    &&& (lookup(o, "notification-nanomessages-mls"@) matches Some(j) && json_bool(j) == Some(d.nanomessages_mls))
    &&& (lookup(o, "notification-new-badges"@) matches Some(j) && json_bool(j) == Some(d.new_badges))
    &&& (lookup(o, "notification-sprint-invitation"@) matches Some(j) && json_bool(j) == Some(d.sprint_invitation))
    &&& (lookup(o, "notification-sprint-start"@) matches Some(j) && json_bool(j) == Some(d.sprint_start))
    &&& (lookup(o, "notification-writing-reminders"@) matches Some(j) && json_bool(j) == Some(d.writing_reminders))
}

/// Whether every field can be read from the entries.
pub open spec fn notification_settings_fields_ok(o: Seq<(String, Json)>) -> bool {
    &&& (lookup(o, "notification-buddy-activities"@) matches Some(j) && json_bool(j) is Some)
    &&& (lookup(o, "notification-buddy-requests"@) matches Some(j) && json_bool(j) is Some)
    &&& (lookup(o, "notification-events-in-home-region"@) matches Some(j) && json_bool(j) is Some)
    &&& (lookup(o, "notification-goal-milestones"@) matches Some(j) && json_bool(j) is Some)
    &&& (lookup(o, "notification-nanomessages-buddies"@) matches Some(j) && json_bool(j) is Some)
    &&& (lookup(o, "notification-nanomessages-hq"@) matches Some(j) && json_bool(j) is Some)
    &&& (lookup(o, "notification-nanomessages-mls"@) matches Some(j) && json_bool(j) is Some)
    &&& (lookup(o, "notification-new-badges"@) matches Some(j) && json_bool(j) is Some)
    &&& (lookup(o, "notification-sprint-invitation"@) matches Some(j) && json_bool(j) is Some)
    &&& (lookup(o, "notification-sprint-start"@) matches Some(j) && json_bool(j) is Some)
    &&& (lookup(o, "notification-writing-reminders"@) matches Some(j) && json_bool(j) is Some)
}

impl NotificationSettings {
    /// Reads the fields from an object's entries; keys of other fields are ignored.
    fn from_fields(o: &Vec<(String, Json)>) -> (r: Result<NotificationSettings, DecodeError>)
        ensures
            r matches Ok(d) ==> notification_settings_read_from(o@, d),
            notification_settings_fields_ok(o@) <==> r is Ok,
    {
        let buddy_activities = field_bool(o, "notification-buddy-activities")?;
        let buddy_requests = field_bool(o, "notification-buddy-requests")?;
        let events_in_home_region = field_bool(o, "notification-events-in-home-region")?;
        let goal_milestones = field_bool(o, "notification-goal-milestones")?;
        let nanomessages_buddies = field_bool(o, "notification-nanomessages-buddies")?;
        let nanomessages_hq = field_bool(o, "notification-nanomessages-hq")?;
        let nanomessages_mls = field_bool(o, "notification-nanomessages-mls")?;
        let new_badges = field_bool(o, "notification-new-badges")?;
        let sprint_invitation = field_bool(o, "notification-sprint-invitation")?;
        let sprint_start = field_bool(o, "notification-sprint-start")?;
        let writing_reminders = field_bool(o, "notification-writing-reminders")?;
        Ok(NotificationSettings { buddy_activities, buddy_requests, events_in_home_region, goal_milestones, nanomessages_buddies, nanomessages_hq, nanomessages_mls, new_badges, sprint_invitation, sprint_start, writing_reminders })
    }

    /// Appends the fields to an object's entries, in declaration order.
    fn push_fields(&self, e: &mut Vec<(String, Json)>) {
        e.push((String::from_str("notification-buddy-activities"), bool_json(&self.buddy_activities)));
        e.push((String::from_str("notification-buddy-requests"), bool_json(&self.buddy_requests)));
        e.push((String::from_str("notification-events-in-home-region"), bool_json(&self.events_in_home_region)));
        e.push((String::from_str("notification-goal-milestones"), bool_json(&self.goal_milestones)));
        e.push((String::from_str("notification-nanomessages-buddies"), bool_json(&self.nanomessages_buddies)));
        e.push((String::from_str("notification-nanomessages-hq"), bool_json(&self.nanomessages_hq)));
        e.push((String::from_str("notification-nanomessages-mls"), bool_json(&self.nanomessages_mls)));
        e.push((String::from_str("notification-new-badges"), bool_json(&self.new_badges)));
        e.push((String::from_str("notification-sprint-invitation"), bool_json(&self.sprint_invitation)));
        e.push((String::from_str("notification-sprint-start"), bool_json(&self.sprint_start)));
        e.push((String::from_str("notification-writing-reminders"), bool_json(&self.writing_reminders)));
    }

}

/// Who may see what of a user; keys prefixed `privacy-`.
#[derive(Clone, Debug, PartialEq)]
pub struct PrivacySettings {
    pub send_nanomessages: PrivacySetting,
    pub view_buddies: PrivacySetting,
    pub view_profile: PrivacySetting,
    pub view_projects: PrivacySetting,
    pub view_search: PrivacySetting,
    pub visibility_activity_logs: bool,
    pub visibility_buddy_lists: bool,
    pub visibility_regions: bool,
}

/// Whether each plain field of `d` is what the entries hold under its key.
pub open spec fn privacy_settings_read_from(o: Seq<(String, Json)>, d: PrivacySettings) -> bool {
    &&& (lookup(o, "privacy-send-nanomessages"@) matches Some(j) && json_privacy_setting(j) == Some(d.send_nanomessages))
    &&& (lookup(o, "privacy-view-buddies"@) matches Some(j) && json_privacy_setting(j) == Some(d.view_buddies))
    &&& (lookup(o, "privacy-view-profile"@) matches Some(j) && json_privacy_setting(j) == Some(d.view_profile))
    &&& (lookup(o, "privacy-view-projects"@) matches Some(j) && json_privacy_setting(j) == Some(d.view_projects))
    &&& (lookup(o, "privacy-view-search"@) matches Some(j) && json_privacy_setting(j) == Some(d.view_search))
    &&& (lookup(o, "privacy-visibility-activity-logs"@) matches Some(j) && json_bool(j) == Some(d.visibility_activity_logs))
    &&& (lookup(o, "privacy-visibility-buddy-lists"@) matches Some(j) && json_bool(j) == Some(d.visibility_buddy_lists))
    &&& (lookup(o, "privacy-visibility-regions"@) matches Some(j) && json_bool(j) == Some(d.visibility_regions))
}

/// Whether every field can be read from the entries.
pub open spec fn privacy_settings_fields_ok(o: Seq<(String, Json)>) -> bool {
    &&& (lookup(o, "privacy-send-nanomessages"@) matches Some(j) && json_privacy_setting(j) is Some)
    &&& (lookup(o, "privacy-view-buddies"@) matches Some(j) && json_privacy_setting(j) is Some)
    &&& (lookup(o, "privacy-view-profile"@) matches Some(j) && json_privacy_setting(j) is Some)
    &&& (lookup(o, "privacy-view-projects"@) matches Some(j) && json_privacy_setting(j) is Some)
    &&& (lookup(o, "privacy-view-search"@) matches Some(j) && json_privacy_setting(j) is Some)
    &&& (lookup(o, "privacy-visibility-activity-logs"@) matches Some(j) && json_bool(j) is Some)
    &&& (lookup(o, "privacy-visibility-buddy-lists"@) matches Some(j) && json_bool(j) is Some)
    &&& (lookup(o, "privacy-visibility-regions"@) matches Some(j) && json_bool(j) is Some)
}

impl PrivacySettings {
    /// Reads the fields from an object's entries; keys of other fields are ignored.
    fn from_fields(o: &Vec<(String, Json)>) -> (r: Result<PrivacySettings, DecodeError>)
        ensures
            r matches Ok(d) ==> privacy_settings_read_from(o@, d),
            privacy_settings_fields_ok(o@) <==> r is Ok,
    {
        let send_nanomessages = field_privacy_setting(o, "privacy-send-nanomessages")?;
        let view_buddies = field_privacy_setting(o, "privacy-view-buddies")?;
        let view_profile = field_privacy_setting(o, "privacy-view-profile")?;
        let view_projects = field_privacy_setting(o, "privacy-view-projects")?;
        let view_search = field_privacy_setting(o, "privacy-view-search")?;
        let visibility_activity_logs = field_bool(o, "privacy-visibility-activity-logs")?;
        let visibility_buddy_lists = field_bool(o, "privacy-visibility-buddy-lists")?;
        let visibility_regions = field_bool(o, "privacy-visibility-regions")?;
        Ok(PrivacySettings { send_nanomessages, view_buddies, view_profile, view_projects, view_search, visibility_activity_logs, visibility_buddy_lists, visibility_regions })
    }

    /// Appends the fields to an object's entries, in declaration order.
    fn push_fields(&self, e: &mut Vec<(String, Json)>) {
        e.push((String::from_str("privacy-send-nanomessages"), privacy_setting_json(&self.send_nanomessages)));
        e.push((String::from_str("privacy-view-buddies"), privacy_setting_json(&self.view_buddies)));
        e.push((String::from_str("privacy-view-profile"), privacy_setting_json(&self.view_profile)));
        e.push((String::from_str("privacy-view-projects"), privacy_setting_json(&self.view_projects)));
        e.push((String::from_str("privacy-view-search"), privacy_setting_json(&self.view_search)));
        e.push((String::from_str("privacy-visibility-activity-logs"), bool_json(&self.visibility_activity_logs)));
        e.push((String::from_str("privacy-visibility-buddy-lists"), bool_json(&self.visibility_buddy_lists)));
        e.push((String::from_str("privacy-visibility-regions"), bool_json(&self.visibility_regions)));
    }

}

/// The statistics a user shows; keys prefixed `stats-`. What each counts is not documented.
#[derive(Clone, Debug, PartialEq)]
pub struct StatsInfo {
    pub projects: u64,
    pub projects_enabled: bool,
    pub streak: u64,
    pub streak_enabled: bool,
    pub word_count: u64,
    pub word_count_enabled: bool,
    pub wordiest: u64,
    pub wordiest_enabled: bool,
    pub writing_pace: Option<u64>,
    pub writing_pace_enabled: bool,
    pub years_done: Option<u64>,
    pub years_enabled: bool,
    pub years_won: Option<u64>,
}

/// Whether each plain field of `d` is what the entries hold under its key.
pub open spec fn stats_info_read_from(o: Seq<(String, Json)>, d: StatsInfo) -> bool {
    &&& (lookup(o, "stats-projects"@) matches Some(j) && json_u64(j) == Some(d.projects))
    &&& (lookup(o, "stats-projects-enabled"@) matches Some(j) && json_bool(j) == Some(d.projects_enabled))
    &&& (lookup(o, "stats-streak"@) matches Some(j) && json_u64(j) == Some(d.streak))
    &&& (lookup(o, "stats-streak-enabled"@) matches Some(j) && json_bool(j) == Some(d.streak_enabled))
    &&& (lookup(o, "stats-word-count"@) matches Some(j) && json_u64(j) == Some(d.word_count))
    &&& (lookup(o, "stats-word-count-enabled"@) matches Some(j) && json_bool(j) == Some(d.word_count_enabled))
    &&& (lookup(o, "stats-wordiest"@) matches Some(j) && json_u64(j) == Some(d.wordiest))
    &&& (lookup(o, "stats-wordiest-enabled"@) matches Some(j) && json_bool(j) == Some(d.wordiest_enabled))
    &&& match d.writing_pace {
        Some(v) => lookup(o, "stats-writing-pace"@) matches Some(j) && json_u64(j) == Some(v),
        None => lookup(o, "stats-writing-pace"@) is None || lookup(o, "stats-writing-pace"@) == Some(Json::Null),
    }
    &&& (lookup(o, "stats-writing-pace-enabled"@) matches Some(j) && json_bool(j) == Some(d.writing_pace_enabled))
    &&& match d.years_done {
        Some(v) => lookup(o, "stats-years-done"@) matches Some(j) && json_u64(j) == Some(v),
        None => lookup(o, "stats-years-done"@) is None || lookup(o, "stats-years-done"@) == Some(Json::Null),
    }
    &&& (lookup(o, "stats-years-enabled"@) matches Some(j) && json_bool(j) == Some(d.years_enabled))
    &&& match d.years_won {
        Some(v) => lookup(o, "stats-years-won"@) matches Some(j) && json_u64(j) == Some(v),
        None => lookup(o, "stats-years-won"@) is None || lookup(o, "stats-years-won"@) == Some(Json::Null),
    }
}

/// Whether every field can be read from the entries.
pub open spec fn stats_info_fields_ok(o: Seq<(String, Json)>) -> bool {
    &&& (lookup(o, "stats-projects"@) matches Some(j) && json_u64(j) is Some)
    &&& (lookup(o, "stats-projects-enabled"@) matches Some(j) && json_bool(j) is Some)
    &&& (lookup(o, "stats-streak"@) matches Some(j) && json_u64(j) is Some)
    &&& (lookup(o, "stats-streak-enabled"@) matches Some(j) && json_bool(j) is Some)
    &&& (lookup(o, "stats-word-count"@) matches Some(j) && json_u64(j) is Some)
    &&& (lookup(o, "stats-word-count-enabled"@) matches Some(j) && json_bool(j) is Some)
    &&& (lookup(o, "stats-wordiest"@) matches Some(j) && json_u64(j) is Some)
    &&& (lookup(o, "stats-wordiest-enabled"@) matches Some(j) && json_bool(j) is Some)
    &&& match lookup(o, "stats-writing-pace"@) {
        Some(j) => j is Null || json_u64(j) is Some,
        None => true,
    }
    &&& (lookup(o, "stats-writing-pace-enabled"@) matches Some(j) && json_bool(j) is Some)
    &&& match lookup(o, "stats-years-done"@) {
        Some(j) => j is Null || json_u64(j) is Some,
        None => true,
    }
    &&& (lookup(o, "stats-years-enabled"@) matches Some(j) && json_bool(j) is Some)
    &&& match lookup(o, "stats-years-won"@) {
        Some(j) => j is Null || json_u64(j) is Some,
        None => true,
    }
}

impl StatsInfo {
    /// Reads the fields from an object's entries; keys of other fields are ignored.
    fn from_fields(o: &Vec<(String, Json)>) -> (r: Result<StatsInfo, DecodeError>)
        ensures
            r matches Ok(d) ==> stats_info_read_from(o@, d),
            stats_info_fields_ok(o@) <==> r is Ok,
    {
        let projects = field_u64(o, "stats-projects")?;
        let projects_enabled = field_bool(o, "stats-projects-enabled")?;
        let streak = field_u64(o, "stats-streak")?;
        let streak_enabled = field_bool(o, "stats-streak-enabled")?;
        let word_count = field_u64(o, "stats-word-count")?;
        let word_count_enabled = field_bool(o, "stats-word-count-enabled")?;
        let wordiest = field_u64(o, "stats-wordiest")?;
        let wordiest_enabled = field_bool(o, "stats-wordiest-enabled")?;
        let writing_pace = opt_field_u64(o, "stats-writing-pace")?;
        let writing_pace_enabled = field_bool(o, "stats-writing-pace-enabled")?;
        let years_done = opt_field_u64(o, "stats-years-done")?;
        let years_enabled = field_bool(o, "stats-years-enabled")?;
        let years_won = opt_field_u64(o, "stats-years-won")?;
        Ok(StatsInfo { projects, projects_enabled, streak, streak_enabled, word_count, word_count_enabled, wordiest, wordiest_enabled, writing_pace, writing_pace_enabled, years_done, years_enabled, years_won })
    }

    /// Appends the fields to an object's entries, in declaration order.
    fn push_fields(&self, e: &mut Vec<(String, Json)>) {
        e.push((String::from_str("stats-projects"), u64_json(&self.projects)));
        e.push((String::from_str("stats-projects-enabled"), bool_json(&self.projects_enabled)));
        e.push((String::from_str("stats-streak"), u64_json(&self.streak)));
        e.push((String::from_str("stats-streak-enabled"), bool_json(&self.streak_enabled)));
        e.push((String::from_str("stats-word-count"), u64_json(&self.word_count)));
        e.push((String::from_str("stats-word-count-enabled"), bool_json(&self.word_count_enabled)));
        e.push((String::from_str("stats-wordiest"), u64_json(&self.wordiest)));
        e.push((String::from_str("stats-wordiest-enabled"), bool_json(&self.wordiest_enabled)));
        e.push((String::from_str("stats-writing-pace"), opt_u64_json(&self.writing_pace)));
        e.push((String::from_str("stats-writing-pace-enabled"), bool_json(&self.writing_pace_enabled)));
        e.push((String::from_str("stats-years-done"), opt_u64_json(&self.years_done)));
        e.push((String::from_str("stats-years-enabled"), bool_json(&self.years_enabled)));
        e.push((String::from_str("stats-years-won"), opt_u64_json(&self.years_won)));
    }

}

/// The attributes of a badge.
#[derive(Clone, Debug, PartialEq)]
pub struct BadgeData {
    pub active: bool,
    pub adheres_to: AdheresTo,
    pub awarded: String,
    pub awarded_description: String,
    pub badge_type: BadgeType,
    pub description: String,
    pub generic_description: String,
    pub list_order: u64,
    pub suborder: Option<u64>,
    pub title: String,
    pub unawarded: String,
    pub winner: bool,
}

/// Whether each plain field of `d` is what the entries hold under its key.
pub open spec fn badge_data_read_from(o: Seq<(String, Json)>, d: BadgeData) -> bool {
    &&& (lookup(o, "active"@) matches Some(j) && json_bool(j) == Some(d.active))
    &&& (lookup(o, "adheres-to"@) matches Some(j) && json_adheres_to(j) == Some(d.adheres_to))
    &&& (lookup(o, "awarded"@) matches Some(j) && json_str(j) == Some(d.awarded@))
    &&& (lookup(o, "awarded-description"@) matches Some(j) && json_str(j) == Some(d.awarded_description@))
    &&& (lookup(o, "badge-type"@) matches Some(j) && json_badge_type(j) == Some(d.badge_type))
    &&& (lookup(o, "description"@) matches Some(j) && json_str(j) == Some(d.description@))
    &&& (lookup(o, "generic-description"@) matches Some(j) && json_str(j) == Some(d.generic_description@))
    &&& (lookup(o, "list-order"@) matches Some(j) && json_u64(j) == Some(d.list_order))
    &&& match d.suborder {
        Some(v) => lookup(o, "suborder"@) matches Some(j) && json_u64(j) == Some(v),
        None => lookup(o, "suborder"@) is None || lookup(o, "suborder"@) == Some(Json::Null),
    }
    &&& (lookup(o, "title"@) matches Some(j) && json_str(j) == Some(d.title@))
    &&& (lookup(o, "unawarded"@) matches Some(j) && json_str(j) == Some(d.unawarded@))
    &&& (lookup(o, "winner"@) matches Some(j) && json_bool(j) == Some(d.winner))
}

/// Whether the entries are the fields of `d`, in order, each under its key in its wire form.
pub open spec fn badge_data_written_as(e: Seq<(String, Json)>, d: BadgeData) -> bool {
    &&& e.len() == 12
    &&& e[0].0@ == "active"@ && writes_bool(e[0].1, d.active)
    &&& e[1].0@ == "adheres-to"@ && writes_adheres_to(e[1].1, d.adheres_to)
    &&& e[2].0@ == "awarded"@ && writes_str(e[2].1, d.awarded)
    &&& e[3].0@ == "awarded-description"@ && writes_str(e[3].1, d.awarded_description)
    &&& e[4].0@ == "badge-type"@ && writes_badge_type(e[4].1, d.badge_type)
    &&& e[5].0@ == "description"@ && writes_str(e[5].1, d.description)
    &&& e[6].0@ == "generic-description"@ && writes_str(e[6].1, d.generic_description)
    &&& e[7].0@ == "list-order"@ && writes_u64(e[7].1, d.list_order)
    &&& e[8].0@ == "suborder"@ && match d.suborder {
        Some(v) => writes_u64(e[8].1, v),
        None => e[8].1 == Json::Null,
    }
    &&& e[9].0@ == "title"@ && writes_str(e[9].1, d.title)
    &&& e[10].0@ == "unawarded"@ && writes_str(e[10].1, d.unawarded)
    &&& e[11].0@ == "winner"@ && writes_bool(e[11].1, d.winner)
}

/// Whether every field can be read from the entries.
pub open spec fn badge_data_fields_ok(o: Seq<(String, Json)>) -> bool {
    &&& (lookup(o, "active"@) matches Some(j) && json_bool(j) is Some)
    &&& (lookup(o, "adheres-to"@) matches Some(j) && json_adheres_to(j) is Some)
    &&& (lookup(o, "awarded"@) matches Some(j) && json_str(j) is Some)
    &&& (lookup(o, "awarded-description"@) matches Some(j) && json_str(j) is Some)
    &&& (lookup(o, "badge-type"@) matches Some(j) && json_badge_type(j) is Some)
    &&& (lookup(o, "description"@) matches Some(j) && json_str(j) is Some)
    &&& (lookup(o, "generic-description"@) matches Some(j) && json_str(j) is Some)
    &&& (lookup(o, "list-order"@) matches Some(j) && json_u64(j) is Some)
    &&& match lookup(o, "suborder"@) {
        Some(j) => j is Null || json_u64(j) is Some,
        None => true,
    }
    &&& (lookup(o, "title"@) matches Some(j) && json_str(j) is Some)
    &&& (lookup(o, "unawarded"@) matches Some(j) && json_str(j) is Some)
    &&& (lookup(o, "winner"@) matches Some(j) && json_bool(j) is Some)
}

/// Whether `p` is the key a failed read of the fields names: the first
/// field, in schema order, that cannot be read.
pub open spec fn badge_data_failed_at(o: Seq<(String, Json)>, p: Seq<char>) -> bool {
    ||| (p == "active"@ && !(lookup(o, "active"@) matches Some(j) && json_bool(j) is Some))
    ||| ((lookup(o, "active"@) matches Some(j) && json_bool(j) is Some) && p == "adheres-to"@ && !(lookup(o, "adheres-to"@) matches Some(j) && json_adheres_to(j) is Some))
    ||| ((lookup(o, "active"@) matches Some(j) && json_bool(j) is Some) && (lookup(o, "adheres-to"@) matches Some(j) && json_adheres_to(j) is Some) && p == "awarded"@ && !(lookup(o, "awarded"@) matches Some(j) && json_str(j) is Some))
    ||| ((lookup(o, "active"@) matches Some(j) && json_bool(j) is Some) && (lookup(o, "adheres-to"@) matches Some(j) && json_adheres_to(j) is Some) && (lookup(o, "awarded"@) matches Some(j) && json_str(j) is Some) && p == "awarded-description"@ && !(lookup(o, "awarded-description"@) matches Some(j) && json_str(j) is Some))
    ||| ((lookup(o, "active"@) matches Some(j) && json_bool(j) is Some) && (lookup(o, "adheres-to"@) matches Some(j) && json_adheres_to(j) is Some) && (lookup(o, "awarded"@) matches Some(j) && json_str(j) is Some) && (lookup(o, "awarded-description"@) matches Some(j) && json_str(j) is Some) && p == "badge-type"@ && !(lookup(o, "badge-type"@) matches Some(j) && json_badge_type(j) is Some))
    ||| ((lookup(o, "active"@) matches Some(j) && json_bool(j) is Some) && (lookup(o, "adheres-to"@) matches Some(j) && json_adheres_to(j) is Some) && (lookup(o, "awarded"@) matches Some(j) && json_str(j) is Some) && (lookup(o, "awarded-description"@) matches Some(j) && json_str(j) is Some) && (lookup(o, "badge-type"@) matches Some(j) && json_badge_type(j) is Some) && p == "description"@ && !(lookup(o, "description"@) matches Some(j) && json_str(j) is Some))
    ||| ((lookup(o, "active"@) matches Some(j) && json_bool(j) is Some) && (lookup(o, "adheres-to"@) matches Some(j) && json_adheres_to(j) is Some) && (lookup(o, "awarded"@) matches Some(j) && json_str(j) is Some) && (lookup(o, "awarded-description"@) matches Some(j) && json_str(j) is Some) && (lookup(o, "badge-type"@) matches Some(j) && json_badge_type(j) is Some) && (lookup(o, "description"@) matches Some(j) && json_str(j) is Some) && p == "generic-description"@ && !(lookup(o, "generic-description"@) matches Some(j) && json_str(j) is Some))
    ||| ((lookup(o, "active"@) matches Some(j) && json_bool(j) is Some) && (lookup(o, "adheres-to"@) matches Some(j) && json_adheres_to(j) is Some) && (lookup(o, "awarded"@) matches Some(j) && json_str(j) is Some) && (lookup(o, "awarded-description"@) matches Some(j) && json_str(j) is Some) && (lookup(o, "badge-type"@) matches Some(j) && json_badge_type(j) is Some) && (lookup(o, "description"@) matches Some(j) && json_str(j) is Some) && (lookup(o, "generic-description"@) matches Some(j) && json_str(j) is Some) && p == "list-order"@ && !(lookup(o, "list-order"@) matches Some(j) && json_u64(j) is Some))
    ||| ((lookup(o, "active"@) matches Some(j) && json_bool(j) is Some) && (lookup(o, "adheres-to"@) matches Some(j) && json_adheres_to(j) is Some) && (lookup(o, "awarded"@) matches Some(j) && json_str(j) is Some) && (lookup(o, "awarded-description"@) matches Some(j) && json_str(j) is Some) && (lookup(o, "badge-type"@) matches Some(j) && json_badge_type(j) is Some) && (lookup(o, "description"@) matches Some(j) && json_str(j) is Some) && (lookup(o, "generic-description"@) matches Some(j) && json_str(j) is Some) && (lookup(o, "list-order"@) matches Some(j) && json_u64(j) is Some) && p == "suborder"@ && !(match lookup(o, "suborder"@) { Some(j) => j is Null || json_u64(j) is Some, None => true }))
    ||| ((lookup(o, "active"@) matches Some(j) && json_bool(j) is Some) && (lookup(o, "adheres-to"@) matches Some(j) && json_adheres_to(j) is Some) && (lookup(o, "awarded"@) matches Some(j) && json_str(j) is Some) && (lookup(o, "awarded-description"@) matches Some(j) && json_str(j) is Some) && (lookup(o, "badge-type"@) matches Some(j) && json_badge_type(j) is Some) && (lookup(o, "description"@) matches Some(j) && json_str(j) is Some) && (lookup(o, "generic-description"@) matches Some(j) && json_str(j) is Some) && (lookup(o, "list-order"@) matches Some(j) && json_u64(j) is Some) && (match lookup(o, "suborder"@) { Some(j) => j is Null || json_u64(j) is Some, None => true }) && p == "title"@ && !(lookup(o, "title"@) matches Some(j) && json_str(j) is Some))
    ||| ((lookup(o, "active"@) matches Some(j) && json_bool(j) is Some) && (lookup(o, "adheres-to"@) matches Some(j) && json_adheres_to(j) is Some) && (lookup(o, "awarded"@) matches Some(j) && json_str(j) is Some) && (lookup(o, "awarded-description"@) matches Some(j) && json_str(j) is Some) && (lookup(o, "badge-type"@) matches Some(j) && json_badge_type(j) is Some) && (lookup(o, "description"@) matches Some(j) && json_str(j) is Some) && (lookup(o, "generic-description"@) matches Some(j) && json_str(j) is Some) && (lookup(o, "list-order"@) matches Some(j) && json_u64(j) is Some) && (match lookup(o, "suborder"@) { Some(j) => j is Null || json_u64(j) is Some, None => true }) && (lookup(o, "title"@) matches Some(j) && json_str(j) is Some) && p == "unawarded"@ && !(lookup(o, "unawarded"@) matches Some(j) && json_str(j) is Some))
    ||| ((lookup(o, "active"@) matches Some(j) && json_bool(j) is Some) && (lookup(o, "adheres-to"@) matches Some(j) && json_adheres_to(j) is Some) && (lookup(o, "awarded"@) matches Some(j) && json_str(j) is Some) && (lookup(o, "awarded-description"@) matches Some(j) && json_str(j) is Some) && (lookup(o, "badge-type"@) matches Some(j) && json_badge_type(j) is Some) && (lookup(o, "description"@) matches Some(j) && json_str(j) is Some) && (lookup(o, "generic-description"@) matches Some(j) && json_str(j) is Some) && (lookup(o, "list-order"@) matches Some(j) && json_u64(j) is Some) && (match lookup(o, "suborder"@) { Some(j) => j is Null || json_u64(j) is Some, None => true }) && (lookup(o, "title"@) matches Some(j) && json_str(j) is Some) && (lookup(o, "unawarded"@) matches Some(j) && json_str(j) is Some) && p == "winner"@ && !(lookup(o, "winner"@) matches Some(j) && json_bool(j) is Some))
}

/// Whether `p` is the key a failed read of a BadgeData object names: the
/// first unknown key, else the first unreadable field.
pub open spec fn badge_data_error_at(o: Seq<(String, Json)>, p: Seq<char>) -> bool {
    if keys_within(o, seq!["active", "adheres-to", "awarded", "awarded-description", "badge-type", "description", "generic-description", "list-order", "suborder", "title", "unawarded", "winner"]) {
        badge_data_failed_at(o, p)
    } else {
        !is_one_of(p, seq!["active", "adheres-to", "awarded", "awarded-description", "badge-type", "description", "generic-description", "list-order", "suborder", "title", "unawarded", "winner"])
    }
}

/// Whether a wire object is a readable BadgeData: no unknown key, and every field readable.
pub open spec fn badge_data_wire_ok(j: Json) -> bool {
    match j {
        Json::Object(e) => keys_within(e@, seq!["active", "adheres-to", "awarded", "awarded-description", "badge-type", "description", "generic-description", "list-order", "suborder", "title", "unawarded", "winner"]) && badge_data_fields_ok(e@),
        _ => false,
    }
}

impl BadgeData {
    /// Reads the fields from an object's entries; keys of other fields are ignored.
    fn from_fields(o: &Vec<(String, Json)>) -> (r: Result<BadgeData, DecodeError>)
        ensures
            r matches Ok(d) ==> badge_data_read_from(o@, d),
            badge_data_fields_ok(o@) <==> r is Ok,
            r matches Err(e) ==> e.path@.len() == 1 && badge_data_failed_at(o@, e.path@[0]@),
    {
        let active = field_bool(o, "active")?;
        let adheres_to = field_adheres_to(o, "adheres-to")?;
        let awarded = field_str(o, "awarded")?;
        let awarded_description = field_str(o, "awarded-description")?;
        let badge_type = field_badge_type(o, "badge-type")?;
        let description = field_str(o, "description")?;
        let generic_description = field_str(o, "generic-description")?;
        let list_order = field_u64(o, "list-order")?;
        let suborder = opt_field_u64(o, "suborder")?;
        let title = field_str(o, "title")?;
        let unawarded = field_str(o, "unawarded")?;
        let winner = field_bool(o, "winner")?;
        Ok(BadgeData { active, adheres_to, awarded, awarded_description, badge_type, description, generic_description, list_order, suborder, title, unawarded, winner })
    }

    /// Appends the fields to an object's entries, in declaration order.
    fn push_fields(&self, e: &mut Vec<(String, Json)>)
        requires
            old(e)@.len() == 0,
        ensures
            badge_data_written_as(final(e)@, *self),
    {
        e.push((String::from_str("active"), bool_json(&self.active)));
        e.push((String::from_str("adheres-to"), adheres_to_json(&self.adheres_to)));
        e.push((String::from_str("awarded"), str_json(&self.awarded)));
        e.push((String::from_str("awarded-description"), str_json(&self.awarded_description)));
        e.push((String::from_str("badge-type"), badge_type_json(&self.badge_type)));
        e.push((String::from_str("description"), str_json(&self.description)));
        e.push((String::from_str("generic-description"), str_json(&self.generic_description)));
        e.push((String::from_str("list-order"), u64_json(&self.list_order)));
        e.push((String::from_str("suborder"), opt_u64_json(&self.suborder)));
        e.push((String::from_str("title"), str_json(&self.title)));
        e.push((String::from_str("unawarded"), str_json(&self.unawarded)));
        e.push((String::from_str("winner"), bool_json(&self.winner)));
    }

    /// Reads an object of this shape; a key outside the schema is refused.
    pub fn from_json(j: &Json) -> (r: Result<BadgeData, DecodeError>)
        ensures
            !(j is Object) ==> r is Err,
            r matches Ok(d) ==> (j matches Json::Object(e) && badge_data_read_from(e@, d)),
            badge_data_wire_ok(*j) <==> r is Ok,
            r matches Err(e) ==> match *j {
                Json::Object(o) => e.path@.len() == 1 && badge_data_error_at(o@, e.path@[0]@),
                _ => e.path@.len() == 0,
            },
            r is Ok ==> (j matches Json::Object(e) && keys_within(e@, seq!["active", "adheres-to", "awarded", "awarded-description", "badge-type", "description", "generic-description", "list-order", "suborder", "title", "unawarded", "winner"])),
    {
        match j {
            Json::Object(o) => {
                check_keys(o, &vec!["active", "adheres-to", "awarded", "awarded-description", "badge-type", "description", "generic-description", "list-order", "suborder", "title", "unawarded", "winner"])?;
                BadgeData::from_fields(o)
            },
            _ => Err(not_an_object()),
        }
    }

    /// Writes an object of this shape.
    pub fn to_json(&self) -> (r: Json)
        ensures
            r matches Json::Object(e) && badge_data_written_as(e@, *self),
    {
        let mut e: Vec<(String, Json)> = Vec::new();
        self.push_fields(&mut e);
        Json::Object(e)
    }
}

/// The attributes of a challenge: a NaNoWriMo or Camp event, or a custom one. The optional fields are mostly filled for the former and null for the latter.
#[derive(Clone, Debug, PartialEq)]
pub struct ChallengeData {
    pub default_goal: u64,
    pub ends_at: Date,
    pub event_type: Option<EventType>,
    pub flexible_goal: Option<bool>,
    pub name: String,
    pub prep_starts_at: Option<Date>,
    pub starts_at: Date,
    pub unit_type: UnitType,
    pub user_id: u64,
    pub win_allowed_at: Option<Date>,
    pub writing_type: WritingType,
}

/// Whether each plain field of `d` is what the entries hold under its key.
pub open spec fn challenge_data_read_from(o: Seq<(String, Json)>, d: ChallengeData) -> bool {
    &&& (lookup(o, "default-goal"@) matches Some(j) && json_u64(j) == Some(d.default_goal))
    &&& (lookup(o, "ends-at"@) matches Some(j) && json_date(j) == Some(d.ends_at@))
    &&& match d.event_type {
        Some(v) => lookup(o, "event-type"@) matches Some(j) && json_event_type(j) == Some(v),
        None => lookup(o, "event-type"@) is None || lookup(o, "event-type"@) == Some(Json::Null),
    }
    &&& match d.flexible_goal {
        Some(v) => lookup(o, "flexible-goal"@) matches Some(j) && json_bool(j) == Some(v),
        None => lookup(o, "flexible-goal"@) is None || lookup(o, "flexible-goal"@) == Some(Json::Null),
    }
    &&& (lookup(o, "name"@) matches Some(j) && json_str(j) == Some(d.name@))
    &&& match d.prep_starts_at {
        Some(v) => lookup(o, "prep-starts-at"@) matches Some(j) && json_date(j) == Some(v@),
        None => lookup(o, "prep-starts-at"@) is None || lookup(o, "prep-starts-at"@) == Some(Json::Null),
    }
    &&& (lookup(o, "starts-at"@) matches Some(j) && json_date(j) == Some(d.starts_at@))
    &&& (lookup(o, "unit-type"@) matches Some(j) && json_unit_type(j) == Some(d.unit_type))
    &&& (lookup(o, "user-id"@) matches Some(j) && json_u64(j) == Some(d.user_id))
    &&& match d.win_allowed_at {
        Some(v) => lookup(o, "win-allowed-at"@) matches Some(j) && json_date(j) == Some(v@),
        None => lookup(o, "win-allowed-at"@) is None || lookup(o, "win-allowed-at"@) == Some(Json::Null),
    }
    &&& (lookup(o, "writing-type"@) matches Some(j) && json_writing_type(j) == Some(d.writing_type))
}

/// Whether the entries are the fields of `d`, in order, each under its key in its wire form.
pub open spec fn challenge_data_written_as(e: Seq<(String, Json)>, d: ChallengeData) -> bool {
    &&& e.len() == 11
    &&& e[0].0@ == "default-goal"@ && writes_u64(e[0].1, d.default_goal)
    &&& e[1].0@ == "ends-at"@ && writes_date(e[1].1, d.ends_at)
    &&& e[2].0@ == "event-type"@ && match d.event_type {
        Some(v) => writes_event_type(e[2].1, v),
        None => e[2].1 == Json::Null,
    }
    &&& e[3].0@ == "flexible-goal"@ && match d.flexible_goal {
        Some(v) => writes_bool(e[3].1, v),
        None => e[3].1 == Json::Null,
    }
    &&& e[4].0@ == "name"@ && writes_str(e[4].1, d.name)
    &&& e[5].0@ == "prep-starts-at"@ && match d.prep_starts_at {
        Some(v) => writes_date(e[5].1, v),
        None => e[5].1 == Json::Null,
    }
    &&& e[6].0@ == "starts-at"@ && writes_date(e[6].1, d.starts_at)
    &&& e[7].0@ == "unit-type"@ && writes_unit_type(e[7].1, d.unit_type)
    &&& e[8].0@ == "user-id"@ && writes_u64(e[8].1, d.user_id)
    &&& e[9].0@ == "win-allowed-at"@ && match d.win_allowed_at {
        Some(v) => writes_date(e[9].1, v),
        None => e[9].1 == Json::Null,
    }
    &&& e[10].0@ == "writing-type"@ && writes_writing_type(e[10].1, d.writing_type)
}

/// Whether every field can be read from the entries.
pub open spec fn challenge_data_fields_ok(o: Seq<(String, Json)>) -> bool {
    &&& (lookup(o, "default-goal"@) matches Some(j) && json_u64(j) is Some)
    &&& (lookup(o, "ends-at"@) matches Some(j) && json_date(j) is Some)
    &&& match lookup(o, "event-type"@) {
        Some(j) => j is Null || json_event_type(j) is Some,
        None => true,
    }
    &&& match lookup(o, "flexible-goal"@) {
        Some(j) => j is Null || json_bool(j) is Some,
        None => true,
    }
    &&& (lookup(o, "name"@) matches Some(j) && json_str(j) is Some)
    &&& match lookup(o, "prep-starts-at"@) {
        Some(j) => j is Null || json_date(j) is Some,
        None => true,
    }
    &&& (lookup(o, "starts-at"@) matches Some(j) && json_date(j) is Some)
    &&& (lookup(o, "unit-type"@) matches Some(j) && json_unit_type(j) is Some)
    &&& (lookup(o, "user-id"@) matches Some(j) && json_u64(j) is Some)
    &&& match lookup(o, "win-allowed-at"@) {
        Some(j) => j is Null || json_date(j) is Some,
        None => true,
    }
    &&& (lookup(o, "writing-type"@) matches Some(j) && json_writing_type(j) is Some)
}

/// Whether `p` is the key a failed read of the fields names: the first
/// field, in schema order, that cannot be read.
pub open spec fn challenge_data_failed_at(o: Seq<(String, Json)>, p: Seq<char>) -> bool {
    ||| (p == "default-goal"@ && !(lookup(o, "default-goal"@) matches Some(j) && json_u64(j) is Some))
    ||| ((lookup(o, "default-goal"@) matches Some(j) && json_u64(j) is Some) && p == "ends-at"@ && !(lookup(o, "ends-at"@) matches Some(j) && json_date(j) is Some))
    ||| ((lookup(o, "default-goal"@) matches Some(j) && json_u64(j) is Some) && (lookup(o, "ends-at"@) matches Some(j) && json_date(j) is Some) && p == "event-type"@ && !(match lookup(o, "event-type"@) { Some(j) => j is Null || json_event_type(j) is Some, None => true }))
    ||| ((lookup(o, "default-goal"@) matches Some(j) && json_u64(j) is Some) && (lookup(o, "ends-at"@) matches Some(j) && json_date(j) is Some) && (match lookup(o, "event-type"@) { Some(j) => j is Null || json_event_type(j) is Some, None => true }) && p == "flexible-goal"@ && !(match lookup(o, "flexible-goal"@) { Some(j) => j is Null || json_bool(j) is Some, None => true }))
    ||| ((lookup(o, "default-goal"@) matches Some(j) && json_u64(j) is Some) && (lookup(o, "ends-at"@) matches Some(j) && json_date(j) is Some) && (match lookup(o, "event-type"@) { Some(j) => j is Null || json_event_type(j) is Some, None => true }) && (match lookup(o, "flexible-goal"@) { Some(j) => j is Null || json_bool(j) is Some, None => true }) && p == "name"@ && !(lookup(o, "name"@) matches Some(j) && json_str(j) is Some))
    ||| ((lookup(o, "default-goal"@) matches Some(j) && json_u64(j) is Some) && (lookup(o, "ends-at"@) matches Some(j) && json_date(j) is Some) && (match lookup(o, "event-type"@) { Some(j) => j is Null || json_event_type(j) is Some, None => true }) && (match lookup(o, "flexible-goal"@) { Some(j) => j is Null || json_bool(j) is Some, None => true }) && (lookup(o, "name"@) matches Some(j) && json_str(j) is Some) && p == "prep-starts-at"@ && !(match lookup(o, "prep-starts-at"@) { Some(j) => j is Null || json_date(j) is Some, None => true }))
    ||| ((lookup(o, "default-goal"@) matches Some(j) && json_u64(j) is Some) && (lookup(o, "ends-at"@) matches Some(j) && json_date(j) is Some) && (match lookup(o, "event-type"@) { Some(j) => j is Null || json_event_type(j) is Some, None => true }) && (match lookup(o, "flexible-goal"@) { Some(j) => j is Null || json_bool(j) is Some, None => true }) && (lookup(o, "name"@) matches Some(j) && json_str(j) is Some) && (match lookup(o, "prep-starts-at"@) { Some(j) => j is Null || json_date(j) is Some, None => true }) && p == "starts-at"@ && !(lookup(o, "starts-at"@) matches Some(j) && json_date(j) is Some))
    ||| ((lookup(o, "default-goal"@) matches Some(j) && json_u64(j) is Some) && (lookup(o, "ends-at"@) matches Some(j) && json_date(j) is Some) && (match lookup(o, "event-type"@) { Some(j) => j is Null || json_event_type(j) is Some, None => true }) && (match lookup(o, "flexible-goal"@) { Some(j) => j is Null || json_bool(j) is Some, None => true }) && (lookup(o, "name"@) matches Some(j) && json_str(j) is Some) && (match lookup(o, "prep-starts-at"@) { Some(j) => j is Null || json_date(j) is Some, None => true }) && (lookup(o, "starts-at"@) matches Some(j) && json_date(j) is Some) && p == "unit-type"@ && !(lookup(o, "unit-type"@) matches Some(j) && json_unit_type(j) is Some))
    ||| ((lookup(o, "default-goal"@) matches Some(j) && json_u64(j) is Some) && (lookup(o, "ends-at"@) matches Some(j) && json_date(j) is Some) && (match lookup(o, "event-type"@) { Some(j) => j is Null || json_event_type(j) is Some, None => true }) && (match lookup(o, "flexible-goal"@) { Some(j) => j is Null || json_bool(j) is Some, None => true }) && (lookup(o, "name"@) matches Some(j) && json_str(j) is Some) && (match lookup(o, "prep-starts-at"@) { Some(j) => j is Null || json_date(j) is Some, None => true }) && (lookup(o, "starts-at"@) matches Some(j) && json_date(j) is Some) && (lookup(o, "unit-type"@) matches Some(j) && json_unit_type(j) is Some) && p == "user-id"@ && !(lookup(o, "user-id"@) matches Some(j) && json_u64(j) is Some))
    ||| ((lookup(o, "default-goal"@) matches Some(j) && json_u64(j) is Some) && (lookup(o, "ends-at"@) matches Some(j) && json_date(j) is Some) && (match lookup(o, "event-type"@) { Some(j) => j is Null || json_event_type(j) is Some, None => true }) && (match lookup(o, "flexible-goal"@) { Some(j) => j is Null || json_bool(j) is Some, None => true }) && (lookup(o, "name"@) matches Some(j) && json_str(j) is Some) && (match lookup(o, "prep-starts-at"@) { Some(j) => j is Null || json_date(j) is Some, None => true }) && (lookup(o, "starts-at"@) matches Some(j) && json_date(j) is Some) && (lookup(o, "unit-type"@) matches Some(j) && json_unit_type(j) is Some) && (lookup(o, "user-id"@) matches Some(j) && json_u64(j) is Some) && p == "win-allowed-at"@ && !(match lookup(o, "win-allowed-at"@) { Some(j) => j is Null || json_date(j) is Some, None => true }))
    ||| ((lookup(o, "default-goal"@) matches Some(j) && json_u64(j) is Some) && (lookup(o, "ends-at"@) matches Some(j) && json_date(j) is Some) && (match lookup(o, "event-type"@) { Some(j) => j is Null || json_event_type(j) is Some, None => true }) && (match lookup(o, "flexible-goal"@) { Some(j) => j is Null || json_bool(j) is Some, None => true }) && (lookup(o, "name"@) matches Some(j) && json_str(j) is Some) && (match lookup(o, "prep-starts-at"@) { Some(j) => j is Null || json_date(j) is Some, None => true }) && (lookup(o, "starts-at"@) matches Some(j) && json_date(j) is Some) && (lookup(o, "unit-type"@) matches Some(j) && json_unit_type(j) is Some) && (lookup(o, "user-id"@) matches Some(j) && json_u64(j) is Some) && (match lookup(o, "win-allowed-at"@) { Some(j) => j is Null || json_date(j) is Some, None => true }) && p == "writing-type"@ && !(lookup(o, "writing-type"@) matches Some(j) && json_writing_type(j) is Some))
}

/// Whether `p` is the key a failed read of a ChallengeData object names: the
/// first unknown key, else the first unreadable field.
pub open spec fn challenge_data_error_at(o: Seq<(String, Json)>, p: Seq<char>) -> bool {
    if keys_within(o, seq!["default-goal", "ends-at", "event-type", "flexible-goal", "name", "prep-starts-at", "starts-at", "unit-type", "user-id", "win-allowed-at", "writing-type"]) {
        challenge_data_failed_at(o, p)
    } else {
        !is_one_of(p, seq!["default-goal", "ends-at", "event-type", "flexible-goal", "name", "prep-starts-at", "starts-at", "unit-type", "user-id", "win-allowed-at", "writing-type"])
    }
}

/// Whether a wire object is a readable ChallengeData: no unknown key, and every field readable.
pub open spec fn challenge_data_wire_ok(j: Json) -> bool {
    match j {
        Json::Object(e) => keys_within(e@, seq!["default-goal", "ends-at", "event-type", "flexible-goal", "name", "prep-starts-at", "starts-at", "unit-type", "user-id", "win-allowed-at", "writing-type"]) && challenge_data_fields_ok(e@),
        _ => false,
    }
}

impl ChallengeData {
    /// Reads the fields from an object's entries; keys of other fields are ignored.
    fn from_fields(o: &Vec<(String, Json)>) -> (r: Result<ChallengeData, DecodeError>)
        ensures
            r matches Ok(d) ==> challenge_data_read_from(o@, d),
            challenge_data_fields_ok(o@) <==> r is Ok,
            r matches Err(e) ==> e.path@.len() == 1 && challenge_data_failed_at(o@, e.path@[0]@),
    {
        let default_goal = field_u64(o, "default-goal")?;
        let ends_at = field_date(o, "ends-at")?;
        let event_type = opt_field_event_type(o, "event-type")?;
        let flexible_goal = opt_field_bool(o, "flexible-goal")?;
        let name = field_str(o, "name")?;
        let prep_starts_at = opt_field_date(o, "prep-starts-at")?;
        let starts_at = field_date(o, "starts-at")?;
        let unit_type = field_unit_type(o, "unit-type")?;
        let user_id = field_u64(o, "user-id")?;
        let win_allowed_at = opt_field_date(o, "win-allowed-at")?;
        let writing_type = field_writing_type(o, "writing-type")?;
        Ok(ChallengeData { default_goal, ends_at, event_type, flexible_goal, name, prep_starts_at, starts_at, unit_type, user_id, win_allowed_at, writing_type })
    }

    /// Appends the fields to an object's entries, in declaration order.
    fn push_fields(&self, e: &mut Vec<(String, Json)>)
        requires
            old(e)@.len() == 0,
        ensures
            challenge_data_written_as(final(e)@, *self),
    {
        e.push((String::from_str("default-goal"), u64_json(&self.default_goal)));
        e.push((String::from_str("ends-at"), date_json(&self.ends_at)));
        e.push((String::from_str("event-type"), opt_event_type_json(&self.event_type)));
        e.push((String::from_str("flexible-goal"), opt_bool_json(&self.flexible_goal)));
        e.push((String::from_str("name"), str_json(&self.name)));
        e.push((String::from_str("prep-starts-at"), opt_date_json(&self.prep_starts_at)));
        e.push((String::from_str("starts-at"), date_json(&self.starts_at)));
        e.push((String::from_str("unit-type"), unit_type_json(&self.unit_type)));
        e.push((String::from_str("user-id"), u64_json(&self.user_id)));
        e.push((String::from_str("win-allowed-at"), opt_date_json(&self.win_allowed_at)));
        e.push((String::from_str("writing-type"), writing_type_json(&self.writing_type)));
    }

    /// Reads an object of this shape; a key outside the schema is refused.
    pub fn from_json(j: &Json) -> (r: Result<ChallengeData, DecodeError>)
        ensures
            !(j is Object) ==> r is Err,
            r matches Ok(d) ==> (j matches Json::Object(e) && challenge_data_read_from(e@, d)),
            challenge_data_wire_ok(*j) <==> r is Ok,
            r matches Err(e) ==> match *j {
                Json::Object(o) => e.path@.len() == 1 && challenge_data_error_at(o@, e.path@[0]@),
                _ => e.path@.len() == 0,
            },
            r is Ok ==> (j matches Json::Object(e) && keys_within(e@, seq!["default-goal", "ends-at", "event-type", "flexible-goal", "name", "prep-starts-at", "starts-at", "unit-type", "user-id", "win-allowed-at", "writing-type"])),
    {
        match j {
            Json::Object(o) => {
                check_keys(o, &vec!["default-goal", "ends-at", "event-type", "flexible-goal", "name", "prep-starts-at", "starts-at", "unit-type", "user-id", "win-allowed-at", "writing-type"])?;
                ChallengeData::from_fields(o)
            },
            _ => Err(not_an_object()),
        }
    }

    /// Writes an object of this shape.
    pub fn to_json(&self) -> (r: Json)
        ensures
            r matches Json::Object(e) && challenge_data_written_as(e@, *self),
    {
        let mut e: Vec<(String, Json)> = Vec::new();
        self.push_fields(&mut e);
        Json::Object(e)
    }
}

/// The attributes of a day's total for a project in a challenge.
#[derive(Clone, Debug, PartialEq)]
pub struct DailyAggregateData {
    pub count: u64,
    pub day: Date,
    pub project_id: u64,
    pub unit_type: UnitType,
    pub user_id: Option<u64>,
}

/// Whether each plain field of `d` is what the entries hold under its key.
pub open spec fn daily_aggregate_data_read_from(o: Seq<(String, Json)>, d: DailyAggregateData) -> bool {
    &&& (lookup(o, "count"@) matches Some(j) && json_u64(j) == Some(d.count))
    &&& (lookup(o, "day"@) matches Some(j) && json_date(j) == Some(d.day@))
    &&& (lookup(o, "project-id"@) matches Some(j) && json_u64(j) == Some(d.project_id))
    &&& (lookup(o, "unit-type"@) matches Some(j) && json_unit_type(j) == Some(d.unit_type))
    &&& match d.user_id {
        Some(v) => lookup(o, "user-id"@) matches Some(j) && json_u64(j) == Some(v),
        None => lookup(o, "user-id"@) is None || lookup(o, "user-id"@) == Some(Json::Null),
    }
}

/// Whether the entries are the fields of `d`, in order, each under its key in its wire form.
pub open spec fn daily_aggregate_data_written_as(e: Seq<(String, Json)>, d: DailyAggregateData) -> bool {
    &&& e.len() == 5
    &&& e[0].0@ == "count"@ && writes_u64(e[0].1, d.count)
    &&& e[1].0@ == "day"@ && writes_date(e[1].1, d.day)
    &&& e[2].0@ == "project-id"@ && writes_u64(e[2].1, d.project_id)
    &&& e[3].0@ == "unit-type"@ && writes_unit_type(e[3].1, d.unit_type)
    &&& e[4].0@ == "user-id"@ && match d.user_id {
        Some(v) => writes_u64(e[4].1, v),
        None => e[4].1 == Json::Null,
    }
}

/// Whether every field can be read from the entries.
pub open spec fn daily_aggregate_data_fields_ok(o: Seq<(String, Json)>) -> bool {
    &&& (lookup(o, "count"@) matches Some(j) && json_u64(j) is Some)
    &&& (lookup(o, "day"@) matches Some(j) && json_date(j) is Some)
    &&& (lookup(o, "project-id"@) matches Some(j) && json_u64(j) is Some)
    &&& (lookup(o, "unit-type"@) matches Some(j) && json_unit_type(j) is Some)
    &&& match lookup(o, "user-id"@) {
        Some(j) => j is Null || json_u64(j) is Some,
        None => true,
    }
}

/// Whether `p` is the key a failed read of the fields names: the first
/// field, in schema order, that cannot be read.
pub open spec fn daily_aggregate_data_failed_at(o: Seq<(String, Json)>, p: Seq<char>) -> bool {
    ||| (p == "count"@ && !(lookup(o, "count"@) matches Some(j) && json_u64(j) is Some))
    ||| ((lookup(o, "count"@) matches Some(j) && json_u64(j) is Some) && p == "day"@ && !(lookup(o, "day"@) matches Some(j) && json_date(j) is Some))
    ||| ((lookup(o, "count"@) matches Some(j) && json_u64(j) is Some) && (lookup(o, "day"@) matches Some(j) && json_date(j) is Some) && p == "project-id"@ && !(lookup(o, "project-id"@) matches Some(j) && json_u64(j) is Some))
    ||| ((lookup(o, "count"@) matches Some(j) && json_u64(j) is Some) && (lookup(o, "day"@) matches Some(j) && json_date(j) is Some) && (lookup(o, "project-id"@) matches Some(j) && json_u64(j) is Some) && p == "unit-type"@ && !(lookup(o, "unit-type"@) matches Some(j) && json_unit_type(j) is Some))
    ||| ((lookup(o, "count"@) matches Some(j) && json_u64(j) is Some) && (lookup(o, "day"@) matches Some(j) && json_date(j) is Some) && (lookup(o, "project-id"@) matches Some(j) && json_u64(j) is Some) && (lookup(o, "unit-type"@) matches Some(j) && json_unit_type(j) is Some) && p == "user-id"@ && !(match lookup(o, "user-id"@) { Some(j) => j is Null || json_u64(j) is Some, None => true }))
}

/// Whether `p` is the key a failed read of a DailyAggregateData object names: the
/// first unknown key, else the first unreadable field.
pub open spec fn daily_aggregate_data_error_at(o: Seq<(String, Json)>, p: Seq<char>) -> bool {
    if keys_within(o, seq!["count", "day", "project-id", "unit-type", "user-id"]) {
        daily_aggregate_data_failed_at(o, p)
    } else {
        !is_one_of(p, seq!["count", "day", "project-id", "unit-type", "user-id"])
    }
}

/// Whether a wire object is a readable DailyAggregateData: no unknown key, and every field readable.
pub open spec fn daily_aggregate_data_wire_ok(j: Json) -> bool {
    match j {
        Json::Object(e) => keys_within(e@, seq!["count", "day", "project-id", "unit-type", "user-id"]) && daily_aggregate_data_fields_ok(e@),
        _ => false,
    }
}

impl DailyAggregateData {
    /// Reads the fields from an object's entries; keys of other fields are ignored.
    fn from_fields(o: &Vec<(String, Json)>) -> (r: Result<DailyAggregateData, DecodeError>)
        ensures
            r matches Ok(d) ==> daily_aggregate_data_read_from(o@, d),
            daily_aggregate_data_fields_ok(o@) <==> r is Ok,
            r matches Err(e) ==> e.path@.len() == 1 && daily_aggregate_data_failed_at(o@, e.path@[0]@),
    {
        let count = field_u64(o, "count")?;
        let day = field_date(o, "day")?;
        let project_id = field_u64(o, "project-id")?;
        let unit_type = field_unit_type(o, "unit-type")?;
        let user_id = opt_field_u64(o, "user-id")?;
        Ok(DailyAggregateData { count, day, project_id, unit_type, user_id })
    }

    /// Appends the fields to an object's entries, in declaration order.
    fn push_fields(&self, e: &mut Vec<(String, Json)>)
        requires
            old(e)@.len() == 0,
        ensures
            daily_aggregate_data_written_as(final(e)@, *self),
    {
        e.push((String::from_str("count"), u64_json(&self.count)));
        e.push((String::from_str("day"), date_json(&self.day)));
        e.push((String::from_str("project-id"), u64_json(&self.project_id)));
        e.push((String::from_str("unit-type"), unit_type_json(&self.unit_type)));
        e.push((String::from_str("user-id"), opt_u64_json(&self.user_id)));
    }

    /// Reads an object of this shape; a key outside the schema is refused.
    pub fn from_json(j: &Json) -> (r: Result<DailyAggregateData, DecodeError>)
        ensures
            !(j is Object) ==> r is Err,
            r matches Ok(d) ==> (j matches Json::Object(e) && daily_aggregate_data_read_from(e@, d)),
            daily_aggregate_data_wire_ok(*j) <==> r is Ok,
            r matches Err(e) ==> match *j {
                Json::Object(o) => e.path@.len() == 1 && daily_aggregate_data_error_at(o@, e.path@[0]@),
                _ => e.path@.len() == 0,
            },
            r is Ok ==> (j matches Json::Object(e) && keys_within(e@, seq!["count", "day", "project-id", "unit-type", "user-id"])),
    {
        match j {
            Json::Object(o) => {
                check_keys(o, &vec!["count", "day", "project-id", "unit-type", "user-id"])?;
                DailyAggregateData::from_fields(o)
            },
            _ => Err(not_an_object()),
        }
    }

    /// Writes an object of this shape.
    pub fn to_json(&self) -> (r: Json)
        ensures
            r matches Json::Object(e) && daily_aggregate_data_written_as(e@, *self),
    {
        let mut e: Vec<(String, Json)> = Vec::new();
        self.push_fields(&mut e);
        Json::Object(e)
    }
}

/// The attributes of a user's favourite author.
#[derive(Clone, Debug, PartialEq)]
pub struct FavoriteAuthorData {
    pub name: String,
    pub user_id: u64,
}

/// Whether each plain field of `d` is what the entries hold under its key.
pub open spec fn favorite_author_data_read_from(o: Seq<(String, Json)>, d: FavoriteAuthorData) -> bool {
    &&& (lookup(o, "name"@) matches Some(j) && json_str(j) == Some(d.name@))
    &&& (lookup(o, "user-id"@) matches Some(j) && json_u64(j) == Some(d.user_id))
}

/// Whether the entries are the fields of `d`, in order, each under its key in its wire form.
pub open spec fn favorite_author_data_written_as(e: Seq<(String, Json)>, d: FavoriteAuthorData) -> bool {
    &&& e.len() == 2
    &&& e[0].0@ == "name"@ && writes_str(e[0].1, d.name)
    &&& e[1].0@ == "user-id"@ && writes_u64(e[1].1, d.user_id)
}

/// Whether every field can be read from the entries.
pub open spec fn favorite_author_data_fields_ok(o: Seq<(String, Json)>) -> bool {
    &&& (lookup(o, "name"@) matches Some(j) && json_str(j) is Some)
    &&& (lookup(o, "user-id"@) matches Some(j) && json_u64(j) is Some)
}

/// Whether `p` is the key a failed read of the fields names: the first
/// field, in schema order, that cannot be read.
pub open spec fn favorite_author_data_failed_at(o: Seq<(String, Json)>, p: Seq<char>) -> bool {
    ||| (p == "name"@ && !(lookup(o, "name"@) matches Some(j) && json_str(j) is Some))
    ||| ((lookup(o, "name"@) matches Some(j) && json_str(j) is Some) && p == "user-id"@ && !(lookup(o, "user-id"@) matches Some(j) && json_u64(j) is Some))
}

/// Whether `p` is the key a failed read of a FavoriteAuthorData object names: the
/// first unknown key, else the first unreadable field.
pub open spec fn favorite_author_data_error_at(o: Seq<(String, Json)>, p: Seq<char>) -> bool {
    if keys_within(o, seq!["name", "user-id"]) {
        favorite_author_data_failed_at(o, p)
    } else {
        !is_one_of(p, seq!["name", "user-id"])
    }
}

/// Whether a wire object is a readable FavoriteAuthorData: no unknown key, and every field readable.
pub open spec fn favorite_author_data_wire_ok(j: Json) -> bool {
    match j {
        Json::Object(e) => keys_within(e@, seq!["name", "user-id"]) && favorite_author_data_fields_ok(e@),
        _ => false,
    }
}

impl FavoriteAuthorData {
    /// Reads the fields from an object's entries; keys of other fields are ignored.
    fn from_fields(o: &Vec<(String, Json)>) -> (r: Result<FavoriteAuthorData, DecodeError>)
        ensures
            r matches Ok(d) ==> favorite_author_data_read_from(o@, d),
            favorite_author_data_fields_ok(o@) <==> r is Ok,
            r matches Err(e) ==> e.path@.len() == 1 && favorite_author_data_failed_at(o@, e.path@[0]@),
    {
        let name = field_str(o, "name")?;
        let user_id = field_u64(o, "user-id")?;
        Ok(FavoriteAuthorData { name, user_id })
    }

    /// Appends the fields to an object's entries, in declaration order.
    fn push_fields(&self, e: &mut Vec<(String, Json)>)
        requires
            old(e)@.len() == 0,
        ensures
            favorite_author_data_written_as(final(e)@, *self),
    {
        e.push((String::from_str("name"), str_json(&self.name)));
        e.push((String::from_str("user-id"), u64_json(&self.user_id)));
    }

    /// Reads an object of this shape; a key outside the schema is refused.
    pub fn from_json(j: &Json) -> (r: Result<FavoriteAuthorData, DecodeError>)
        ensures
            !(j is Object) ==> r is Err,
            r matches Ok(d) ==> (j matches Json::Object(e) && favorite_author_data_read_from(e@, d)),
            favorite_author_data_wire_ok(*j) <==> r is Ok,
            r matches Err(e) ==> match *j {
                Json::Object(o) => e.path@.len() == 1 && favorite_author_data_error_at(o@, e.path@[0]@),
                _ => e.path@.len() == 0,
            },
            r is Ok ==> (j matches Json::Object(e) && keys_within(e@, seq!["name", "user-id"])),
    {
        match j {
            Json::Object(o) => {
                check_keys(o, &vec!["name", "user-id"])?;
                FavoriteAuthorData::from_fields(o)
            },
            _ => Err(not_an_object()),
        }
    }

    /// Writes an object of this shape.
    pub fn to_json(&self) -> (r: Json)
        ensures
            r matches Json::Object(e) && favorite_author_data_written_as(e@, *self),
    {
        let mut e: Vec<(String, Json)> = Vec::new();
        self.push_fields(&mut e);
        Json::Object(e)
    }
}

/// The attributes of a user's favourite book.
#[derive(Clone, Debug, PartialEq)]
pub struct FavoriteBookData {
    pub title: String,
    pub user_id: u64,
}

/// Whether each plain field of `d` is what the entries hold under its key.
pub open spec fn favorite_book_data_read_from(o: Seq<(String, Json)>, d: FavoriteBookData) -> bool {
    &&& (lookup(o, "title"@) matches Some(j) && json_str(j) == Some(d.title@))
    &&& (lookup(o, "user-id"@) matches Some(j) && json_u64(j) == Some(d.user_id))
}

/// Whether the entries are the fields of `d`, in order, each under its key in its wire form.
pub open spec fn favorite_book_data_written_as(e: Seq<(String, Json)>, d: FavoriteBookData) -> bool {
    &&& e.len() == 2
    &&& e[0].0@ == "title"@ && writes_str(e[0].1, d.title)
    &&& e[1].0@ == "user-id"@ && writes_u64(e[1].1, d.user_id)
}

/// Whether every field can be read from the entries.
pub open spec fn favorite_book_data_fields_ok(o: Seq<(String, Json)>) -> bool {
    &&& (lookup(o, "title"@) matches Some(j) && json_str(j) is Some)
    &&& (lookup(o, "user-id"@) matches Some(j) && json_u64(j) is Some)
}

/// Whether `p` is the key a failed read of the fields names: the first
/// field, in schema order, that cannot be read.
pub open spec fn favorite_book_data_failed_at(o: Seq<(String, Json)>, p: Seq<char>) -> bool {
    ||| (p == "title"@ && !(lookup(o, "title"@) matches Some(j) && json_str(j) is Some))
    ||| ((lookup(o, "title"@) matches Some(j) && json_str(j) is Some) && p == "user-id"@ && !(lookup(o, "user-id"@) matches Some(j) && json_u64(j) is Some))
}

/// Whether `p` is the key a failed read of a FavoriteBookData object names: the
/// first unknown key, else the first unreadable field.
pub open spec fn favorite_book_data_error_at(o: Seq<(String, Json)>, p: Seq<char>) -> bool {
    if keys_within(o, seq!["title", "user-id"]) {
        favorite_book_data_failed_at(o, p)
    } else {
        !is_one_of(p, seq!["title", "user-id"])
    }
}

/// Whether a wire object is a readable FavoriteBookData: no unknown key, and every field readable.
pub open spec fn favorite_book_data_wire_ok(j: Json) -> bool {
    match j {
        Json::Object(e) => keys_within(e@, seq!["title", "user-id"]) && favorite_book_data_fields_ok(e@),
        _ => false,
    }
}

impl FavoriteBookData {
    /// Reads the fields from an object's entries; keys of other fields are ignored.
    fn from_fields(o: &Vec<(String, Json)>) -> (r: Result<FavoriteBookData, DecodeError>)
        ensures
            r matches Ok(d) ==> favorite_book_data_read_from(o@, d),
            favorite_book_data_fields_ok(o@) <==> r is Ok,
            r matches Err(e) ==> e.path@.len() == 1 && favorite_book_data_failed_at(o@, e.path@[0]@),
    {
        let title = field_str(o, "title")?;
        let user_id = field_u64(o, "user-id")?;
        Ok(FavoriteBookData { title, user_id })
    }

    /// Appends the fields to an object's entries, in declaration order.
    fn push_fields(&self, e: &mut Vec<(String, Json)>)
        requires
            old(e)@.len() == 0,
        ensures
            favorite_book_data_written_as(final(e)@, *self),
    {
        e.push((String::from_str("title"), str_json(&self.title)));
        e.push((String::from_str("user-id"), u64_json(&self.user_id)));
    }

    /// Reads an object of this shape; a key outside the schema is refused.
    pub fn from_json(j: &Json) -> (r: Result<FavoriteBookData, DecodeError>)
        ensures
            !(j is Object) ==> r is Err,
            r matches Ok(d) ==> (j matches Json::Object(e) && favorite_book_data_read_from(e@, d)),
            favorite_book_data_wire_ok(*j) <==> r is Ok,
            r matches Err(e) ==> match *j {
                Json::Object(o) => e.path@.len() == 1 && favorite_book_data_error_at(o@, e.path@[0]@),
                _ => e.path@.len() == 0,
            },
            r is Ok ==> (j matches Json::Object(e) && keys_within(e@, seq!["title", "user-id"])),
    {
        match j {
            Json::Object(o) => {
                check_keys(o, &vec!["title", "user-id"])?;
                FavoriteBookData::from_fields(o)
            },
            _ => Err(not_an_object()),
        }
    }

    /// Writes an object of this shape.
    pub fn to_json(&self) -> (r: Json)
        ensures
            r matches Json::Object(e) && favorite_book_data_written_as(e@, *self),
    {
        let mut e: Vec<(String, Json)> = Vec::new();
        self.push_fields(&mut e);
        Json::Object(e)
    }
}

/// The attributes of a genre label; `user_id` is the user who made it.
#[derive(Clone, Debug, PartialEq)]
pub struct GenreData {
    pub name: String,
    pub user_id: u64,
}

/// Whether each plain field of `d` is what the entries hold under its key.
pub open spec fn genre_data_read_from(o: Seq<(String, Json)>, d: GenreData) -> bool {
    &&& (lookup(o, "name"@) matches Some(j) && json_str(j) == Some(d.name@))
    &&& (lookup(o, "user-id"@) matches Some(j) && json_u64(j) == Some(d.user_id))
}

/// Whether the entries are the fields of `d`, in order, each under its key in its wire form.
pub open spec fn genre_data_written_as(e: Seq<(String, Json)>, d: GenreData) -> bool {
    &&& e.len() == 2
    &&& e[0].0@ == "name"@ && writes_str(e[0].1, d.name)
    &&& e[1].0@ == "user-id"@ && writes_u64(e[1].1, d.user_id)
}

/// Whether every field can be read from the entries.
pub open spec fn genre_data_fields_ok(o: Seq<(String, Json)>) -> bool {
    &&& (lookup(o, "name"@) matches Some(j) && json_str(j) is Some)
    &&& (lookup(o, "user-id"@) matches Some(j) && json_u64(j) is Some)
}

/// Whether `p` is the key a failed read of the fields names: the first
/// field, in schema order, that cannot be read.
pub open spec fn genre_data_failed_at(o: Seq<(String, Json)>, p: Seq<char>) -> bool {
    ||| (p == "name"@ && !(lookup(o, "name"@) matches Some(j) && json_str(j) is Some))
    ||| ((lookup(o, "name"@) matches Some(j) && json_str(j) is Some) && p == "user-id"@ && !(lookup(o, "user-id"@) matches Some(j) && json_u64(j) is Some))
}

/// Whether `p` is the key a failed read of a GenreData object names: the
/// first unknown key, else the first unreadable field.
pub open spec fn genre_data_error_at(o: Seq<(String, Json)>, p: Seq<char>) -> bool {
    if keys_within(o, seq!["name", "user-id"]) {
        genre_data_failed_at(o, p)
    } else {
        !is_one_of(p, seq!["name", "user-id"])
    }
}

/// Whether a wire object is a readable GenreData: no unknown key, and every field readable.
pub open spec fn genre_data_wire_ok(j: Json) -> bool {
    match j {
        Json::Object(e) => keys_within(e@, seq!["name", "user-id"]) && genre_data_fields_ok(e@),
        _ => false,
    }
}

impl GenreData {
    /// Reads the fields from an object's entries; keys of other fields are ignored.
    fn from_fields(o: &Vec<(String, Json)>) -> (r: Result<GenreData, DecodeError>)
        ensures
            r matches Ok(d) ==> genre_data_read_from(o@, d),
            genre_data_fields_ok(o@) <==> r is Ok,
            r matches Err(e) ==> e.path@.len() == 1 && genre_data_failed_at(o@, e.path@[0]@),
    {
        let name = field_str(o, "name")?;
        let user_id = field_u64(o, "user-id")?;
        Ok(GenreData { name, user_id })
    }

    /// Appends the fields to an object's entries, in declaration order.
    fn push_fields(&self, e: &mut Vec<(String, Json)>)
        requires
            old(e)@.len() == 0,
        ensures
            genre_data_written_as(final(e)@, *self),
    {
        e.push((String::from_str("name"), str_json(&self.name)));
        e.push((String::from_str("user-id"), u64_json(&self.user_id)));
    }

    /// Reads an object of this shape; a key outside the schema is refused.
    pub fn from_json(j: &Json) -> (r: Result<GenreData, DecodeError>)
        ensures
            !(j is Object) ==> r is Err,
            r matches Ok(d) ==> (j matches Json::Object(e) && genre_data_read_from(e@, d)),
            genre_data_wire_ok(*j) <==> r is Ok,
            r matches Err(e) ==> match *j {
                Json::Object(o) => e.path@.len() == 1 && genre_data_error_at(o@, e.path@[0]@),
                _ => e.path@.len() == 0,
            },
            r is Ok ==> (j matches Json::Object(e) && keys_within(e@, seq!["name", "user-id"])),
    {
        match j {
            Json::Object(o) => {
                check_keys(o, &vec!["name", "user-id"])?;
                GenreData::from_fields(o)
            },
            _ => Err(not_an_object()),
        }
    }

    /// Writes an object of this shape.
    pub fn to_json(&self) -> (r: Json)
        ensures
            r matches Json::Object(e) && genre_data_written_as(e@, *self),
    {
        let mut e: Vec<(String, Json)> = Vec::new();
        self.push_fields(&mut e);
        Json::Object(e)
    }
}

/// The attributes of a group. Coordinates keep the text of their JSON numbers.
#[derive(Clone, Debug, PartialEq)]
pub struct GroupData {
    pub approved_by_id: u64,
    pub avatar: Option<String>,
    pub cancelled_by_id: u64,
    pub created_at: Timestamp,
    pub description: Option<String>,
    pub end_dt: Option<Timestamp>,
    pub forum_link: Option<String>,
    pub group_id: Option<u64>,
    pub group_type: GroupType,
    pub joining_rule: Option<JoiningRule>,
    pub latitude: Option<String>,
    pub longitude: Option<String>,
    pub max_member_count: Option<u64>,
    pub member_count: Option<u64>,
    pub name: String,
    pub plate: Option<String>,
    pub slug: String,
    pub start_dt: Option<Timestamp>,
    pub time_zone: Option<String>,
    pub updated_at: Timestamp,
    pub url: Option<String>,
    pub user_id: Option<u64>,
}

/// Whether each plain field of `d` is what the entries hold under its key.
pub open spec fn group_data_read_from(o: Seq<(String, Json)>, d: GroupData) -> bool {
    &&& (lookup(o, "approved-by-id"@) matches Some(j) && json_u64(j) == Some(d.approved_by_id))
    &&& match d.avatar {
        Some(v) => lookup(o, "avatar"@) matches Some(j) && json_str(j) == Some(v@),
        None => lookup(o, "avatar"@) is None || lookup(o, "avatar"@) == Some(Json::Null),
    }
    &&& (lookup(o, "cancelled-by-id"@) matches Some(j) && json_u64(j) == Some(d.cancelled_by_id))
    &&& (lookup(o, "created-at"@) matches Some(j) && json_timestamp(j) == Some(d.created_at@))
    &&& match d.description {
        Some(v) => lookup(o, "description"@) matches Some(j) && json_str(j) == Some(v@),
        None => lookup(o, "description"@) is None || lookup(o, "description"@) == Some(Json::Null),
    }
    &&& match d.end_dt {
        Some(v) => lookup(o, "end-dt"@) matches Some(j) && json_timestamp(j) == Some(v@),
        None => lookup(o, "end-dt"@) is None || lookup(o, "end-dt"@) == Some(Json::Null),
    }
    &&& match d.forum_link {
        Some(v) => lookup(o, "forum-link"@) matches Some(j) && json_str(j) == Some(v@),
        None => lookup(o, "forum-link"@) is None || lookup(o, "forum-link"@) == Some(Json::Null),
    }
    &&& match d.group_id {
        Some(v) => lookup(o, "group-id"@) matches Some(j) && json_u64(j) == Some(v),
        None => lookup(o, "group-id"@) is None || lookup(o, "group-id"@) == Some(Json::Null),
    }
    &&& (lookup(o, "group-type"@) matches Some(j) && json_group_type(j) == Some(d.group_type))
    &&& match d.joining_rule {
        Some(v) => lookup(o, "joining-rule"@) matches Some(j) && json_joining_rule(j) == Some(v),
        None => lookup(o, "joining-rule"@) is None || lookup(o, "joining-rule"@) == Some(Json::Null),
    }
    &&& match d.latitude {
        Some(v) => lookup(o, "latitude"@) matches Some(j) && json_number(j) == Some(v@),
        None => lookup(o, "latitude"@) is None || lookup(o, "latitude"@) == Some(Json::Null),
    }
    &&& match d.longitude {
        Some(v) => lookup(o, "longitude"@) matches Some(j) && json_number(j) == Some(v@),
        None => lookup(o, "longitude"@) is None || lookup(o, "longitude"@) == Some(Json::Null),
    }
    &&& match d.max_member_count {
        Some(v) => lookup(o, "max-member-count"@) matches Some(j) && json_u64(j) == Some(v),
        None => lookup(o, "max-member-count"@) is None || lookup(o, "max-member-count"@) == Some(Json::Null),
    }
    &&& match d.member_count {
        Some(v) => lookup(o, "member-count"@) matches Some(j) && json_u64(j) == Some(v),
        None => lookup(o, "member-count"@) is None || lookup(o, "member-count"@) == Some(Json::Null),
    }
    &&& (lookup(o, "name"@) matches Some(j) && json_str(j) == Some(d.name@))
    &&& match d.plate {
        Some(v) => lookup(o, "plate"@) matches Some(j) && json_str(j) == Some(v@),
        None => lookup(o, "plate"@) is None || lookup(o, "plate"@) == Some(Json::Null),
    }
    &&& (lookup(o, "slug"@) matches Some(j) && json_str(j) == Some(d.slug@))
    &&& match d.start_dt {
        Some(v) => lookup(o, "start-dt"@) matches Some(j) && json_timestamp(j) == Some(v@),
        None => lookup(o, "start-dt"@) is None || lookup(o, "start-dt"@) == Some(Json::Null),
    }
    &&& match d.time_zone {
        Some(v) => lookup(o, "time-zone"@) matches Some(j) && json_str(j) == Some(v@),
        None => lookup(o, "time-zone"@) is None || lookup(o, "time-zone"@) == Some(Json::Null),
    }
    &&& (lookup(o, "updated-at"@) matches Some(j) && json_timestamp(j) == Some(d.updated_at@))
    &&& match d.url {
        Some(v) => lookup(o, "url"@) matches Some(j) && json_str(j) == Some(v@),
        None => lookup(o, "url"@) is None || lookup(o, "url"@) == Some(Json::Null),
    }
    &&& match d.user_id {
        Some(v) => lookup(o, "user-id"@) matches Some(j) && json_u64(j) == Some(v),
        None => lookup(o, "user-id"@) is None || lookup(o, "user-id"@) == Some(Json::Null),
    }
}

/// Whether the entries are the fields of `d`, in order, each under its key in its wire form.
pub open spec fn group_data_written_as(e: Seq<(String, Json)>, d: GroupData) -> bool {
    &&& e.len() == 22
    &&& e[0].0@ == "approved-by-id"@ && writes_u64(e[0].1, d.approved_by_id)
    &&& e[1].0@ == "avatar"@ && match d.avatar {
        Some(v) => writes_str(e[1].1, v),
        None => e[1].1 == Json::Null,
    }
    &&& e[2].0@ == "cancelled-by-id"@ && writes_u64(e[2].1, d.cancelled_by_id)
    &&& e[3].0@ == "created-at"@ && writes_timestamp(e[3].1, d.created_at)
    &&& e[4].0@ == "description"@ && match d.description {
        Some(v) => writes_str(e[4].1, v),
        None => e[4].1 == Json::Null,
    }
    &&& e[5].0@ == "end-dt"@ && match d.end_dt {
        Some(v) => writes_timestamp(e[5].1, v),
        None => e[5].1 == Json::Null,
    }
    &&& e[6].0@ == "forum-link"@ && match d.forum_link {
        Some(v) => writes_str(e[6].1, v),
        None => e[6].1 == Json::Null,
    }
    &&& e[7].0@ == "group-id"@ && match d.group_id {
        Some(v) => writes_u64(e[7].1, v),
        None => e[7].1 == Json::Null,
    }
    &&& e[8].0@ == "group-type"@ && writes_group_type(e[8].1, d.group_type)
    &&& e[9].0@ == "joining-rule"@ && match d.joining_rule {
        Some(v) => writes_joining_rule(e[9].1, v),
        None => e[9].1 == Json::Null,
    }
    &&& e[10].0@ == "latitude"@ && match d.latitude {
        Some(v) => writes_number(e[10].1, v),
        None => e[10].1 == Json::Null,
    }
    &&& e[11].0@ == "longitude"@ && match d.longitude {
        Some(v) => writes_number(e[11].1, v),
        None => e[11].1 == Json::Null,
    }
    &&& e[12].0@ == "max-member-count"@ && match d.max_member_count {
        Some(v) => writes_u64(e[12].1, v),
        None => e[12].1 == Json::Null,
    }
    &&& e[13].0@ == "member-count"@ && match d.member_count {
        Some(v) => writes_u64(e[13].1, v),
        None => e[13].1 == Json::Null,
    }
    &&& e[14].0@ == "name"@ && writes_str(e[14].1, d.name)
    &&& e[15].0@ == "plate"@ && match d.plate {
        Some(v) => writes_str(e[15].1, v),
        None => e[15].1 == Json::Null,
    }
    &&& e[16].0@ == "slug"@ && writes_str(e[16].1, d.slug)
    &&& e[17].0@ == "start-dt"@ && match d.start_dt {
        Some(v) => writes_timestamp(e[17].1, v),
        None => e[17].1 == Json::Null,
    }
    &&& e[18].0@ == "time-zone"@ && match d.time_zone {
        Some(v) => writes_str(e[18].1, v),
        None => e[18].1 == Json::Null,
    }
    &&& e[19].0@ == "updated-at"@ && writes_timestamp(e[19].1, d.updated_at)
    &&& e[20].0@ == "url"@ && match d.url {
        Some(v) => writes_str(e[20].1, v),
        None => e[20].1 == Json::Null,
    }
    &&& e[21].0@ == "user-id"@ && match d.user_id {
        Some(v) => writes_u64(e[21].1, v),
        None => e[21].1 == Json::Null,
    }
}

/// Whether every field can be read from the entries.
pub open spec fn group_data_fields_ok(o: Seq<(String, Json)>) -> bool {
    &&& (lookup(o, "approved-by-id"@) matches Some(j) && json_u64(j) is Some)
    &&& match lookup(o, "avatar"@) {
        Some(j) => j is Null || json_str(j) is Some,
        None => true,
    }
    &&& (lookup(o, "cancelled-by-id"@) matches Some(j) && json_u64(j) is Some)
    &&& (lookup(o, "created-at"@) matches Some(j) && json_timestamp(j) is Some)
    &&& match lookup(o, "description"@) {
        Some(j) => j is Null || json_str(j) is Some,
        None => true,
    }
    &&& match lookup(o, "end-dt"@) {
        Some(j) => j is Null || json_timestamp(j) is Some,
        None => true,
    }
    &&& match lookup(o, "forum-link"@) {
        Some(j) => j is Null || json_str(j) is Some,
        None => true,
    }
    &&& match lookup(o, "group-id"@) {
        Some(j) => j is Null || json_u64(j) is Some,
        None => true,
    }
    &&& (lookup(o, "group-type"@) matches Some(j) && json_group_type(j) is Some)
    &&& match lookup(o, "joining-rule"@) {
        Some(j) => j is Null || json_joining_rule(j) is Some,
        None => true,
    }
    &&& match lookup(o, "latitude"@) {
        Some(j) => j is Null || json_number(j) is Some,
        None => true,
    }
    &&& match lookup(o, "longitude"@) {
        Some(j) => j is Null || json_number(j) is Some,
        None => true,
    }
    &&& match lookup(o, "max-member-count"@) {
        Some(j) => j is Null || json_u64(j) is Some,
        None => true,
    }
    &&& match lookup(o, "member-count"@) {
        Some(j) => j is Null || json_u64(j) is Some,
        None => true,
    }
    &&& (lookup(o, "name"@) matches Some(j) && json_str(j) is Some)
    &&& match lookup(o, "plate"@) {
        Some(j) => j is Null || json_str(j) is Some,
        None => true,
    }
    &&& (lookup(o, "slug"@) matches Some(j) && json_str(j) is Some)
    &&& match lookup(o, "start-dt"@) {
        Some(j) => j is Null || json_timestamp(j) is Some,
        None => true,
    }
    &&& match lookup(o, "time-zone"@) {
        Some(j) => j is Null || json_str(j) is Some,
        None => true,
    }
    &&& (lookup(o, "updated-at"@) matches Some(j) && json_timestamp(j) is Some)
    &&& match lookup(o, "url"@) {
        Some(j) => j is Null || json_str(j) is Some,
        None => true,
    }
    &&& match lookup(o, "user-id"@) {
        Some(j) => j is Null || json_u64(j) is Some,
        None => true,
    }
}

/// Whether `p` is the key a failed read of the fields names: the first
/// field, in schema order, that cannot be read.
pub open spec fn group_data_failed_at(o: Seq<(String, Json)>, p: Seq<char>) -> bool {
    ||| (p == "approved-by-id"@ && !(lookup(o, "approved-by-id"@) matches Some(j) && json_u64(j) is Some))
    ||| ((lookup(o, "approved-by-id"@) matches Some(j) && json_u64(j) is Some) && p == "avatar"@ && !(match lookup(o, "avatar"@) { Some(j) => j is Null || json_str(j) is Some, None => true }))
    ||| ((lookup(o, "approved-by-id"@) matches Some(j) && json_u64(j) is Some) && (match lookup(o, "avatar"@) { Some(j) => j is Null || json_str(j) is Some, None => true }) && p == "cancelled-by-id"@ && !(lookup(o, "cancelled-by-id"@) matches Some(j) && json_u64(j) is Some))
    ||| ((lookup(o, "approved-by-id"@) matches Some(j) && json_u64(j) is Some) && (match lookup(o, "avatar"@) { Some(j) => j is Null || json_str(j) is Some, None => true }) && (lookup(o, "cancelled-by-id"@) matches Some(j) && json_u64(j) is Some) && p == "created-at"@ && !(lookup(o, "created-at"@) matches Some(j) && json_timestamp(j) is Some))
    ||| ((lookup(o, "approved-by-id"@) matches Some(j) && json_u64(j) is Some) && (match lookup(o, "avatar"@) { Some(j) => j is Null || json_str(j) is Some, None => true }) && (lookup(o, "cancelled-by-id"@) matches Some(j) && json_u64(j) is Some) && (lookup(o, "created-at"@) matches Some(j) && json_timestamp(j) is Some) && p == "description"@ && !(match lookup(o, "description"@) { Some(j) => j is Null || json_str(j) is Some, None => true }))
    ||| ((lookup(o, "approved-by-id"@) matches Some(j) && json_u64(j) is Some) && (match lookup(o, "avatar"@) { Some(j) => j is Null || json_str(j) is Some, None => true }) && (lookup(o, "cancelled-by-id"@) matches Some(j) && json_u64(j) is Some) && (lookup(o, "created-at"@) matches Some(j) && json_timestamp(j) is Some) && (match lookup(o, "description"@) { Some(j) => j is Null || json_str(j) is Some, None => true }) && p == "end-dt"@ && !(match lookup(o, "end-dt"@) { Some(j) => j is Null || json_timestamp(j) is Some, None => true }))
    ||| ((lookup(o, "approved-by-id"@) matches Some(j) && json_u64(j) is Some) && (match lookup(o, "avatar"@) { Some(j) => j is Null || json_str(j) is Some, None => true }) && (lookup(o, "cancelled-by-id"@) matches Some(j) && json_u64(j) is Some) && (lookup(o, "created-at"@) matches Some(j) && json_timestamp(j) is Some) && (match lookup(o, "description"@) { Some(j) => j is Null || json_str(j) is Some, None => true }) && (match lookup(o, "end-dt"@) { Some(j) => j is Null || json_timestamp(j) is Some, None => true }) && p == "forum-link"@ && !(match lookup(o, "forum-link"@) { Some(j) => j is Null || json_str(j) is Some, None => true }))
    ||| ((lookup(o, "approved-by-id"@) matches Some(j) && json_u64(j) is Some) && (match lookup(o, "avatar"@) { Some(j) => j is Null || json_str(j) is Some, None => true }) && (lookup(o, "cancelled-by-id"@) matches Some(j) && json_u64(j) is Some) && (lookup(o, "created-at"@) matches Some(j) && json_timestamp(j) is Some) && (match lookup(o, "description"@) { Some(j) => j is Null || json_str(j) is Some, None => true }) && (match lookup(o, "end-dt"@) { Some(j) => j is Null || json_timestamp(j) is Some, None => true }) && (match lookup(o, "forum-link"@) { Some(j) => j is Null || json_str(j) is Some, None => true }) && p == "group-id"@ && !(match lookup(o, "group-id"@) { Some(j) => j is Null || json_u64(j) is Some, None => true }))
    ||| ((lookup(o, "approved-by-id"@) matches Some(j) && json_u64(j) is Some) && (match lookup(o, "avatar"@) { Some(j) => j is Null || json_str(j) is Some, None => true }) && (lookup(o, "cancelled-by-id"@) matches Some(j) && json_u64(j) is Some) && (lookup(o, "created-at"@) matches Some(j) && json_timestamp(j) is Some) && (match lookup(o, "description"@) { Some(j) => j is Null || json_str(j) is Some, None => true }) && (match lookup(o, "end-dt"@) { Some(j) => j is Null || json_timestamp(j) is Some, None => true }) && (match lookup(o, "forum-link"@) { Some(j) => j is Null || json_str(j) is Some, None => true }) && (match lookup(o, "group-id"@) { Some(j) => j is Null || json_u64(j) is Some, None => true }) && p == "group-type"@ && !(lookup(o, "group-type"@) matches Some(j) && json_group_type(j) is Some))
    ||| ((lookup(o, "approved-by-id"@) matches Some(j) && json_u64(j) is Some) && (match lookup(o, "avatar"@) { Some(j) => j is Null || json_str(j) is Some, None => true }) && (lookup(o, "cancelled-by-id"@) matches Some(j) && json_u64(j) is Some) && (lookup(o, "created-at"@) matches Some(j) && json_timestamp(j) is Some) && (match lookup(o, "description"@) { Some(j) => j is Null || json_str(j) is Some, None => true }) && (match lookup(o, "end-dt"@) { Some(j) => j is Null || json_timestamp(j) is Some, None => true }) && (match lookup(o, "forum-link"@) { Some(j) => j is Null || json_str(j) is Some, None => true }) && (match lookup(o, "group-id"@) { Some(j) => j is Null || json_u64(j) is Some, None => true }) && (lookup(o, "group-type"@) matches Some(j) && json_group_type(j) is Some) && p == "joining-rule"@ && !(match lookup(o, "joining-rule"@) { Some(j) => j is Null || json_joining_rule(j) is Some, None => true }))
    ||| ((lookup(o, "approved-by-id"@) matches Some(j) && json_u64(j) is Some) && (match lookup(o, "avatar"@) { Some(j) => j is Null || json_str(j) is Some, None => true }) && (lookup(o, "cancelled-by-id"@) matches Some(j) && json_u64(j) is Some) && (lookup(o, "created-at"@) matches Some(j) && json_timestamp(j) is Some) && (match lookup(o, "description"@) { Some(j) => j is Null || json_str(j) is Some, None => true }) && (match lookup(o, "end-dt"@) { Some(j) => j is Null || json_timestamp(j) is Some, None => true }) && (match lookup(o, "forum-link"@) { Some(j) => j is Null || json_str(j) is Some, None => true }) && (match lookup(o, "group-id"@) { Some(j) => j is Null || json_u64(j) is Some, None => true }) && (lookup(o, "group-type"@) matches Some(j) && json_group_type(j) is Some) && (match lookup(o, "joining-rule"@) { Some(j) => j is Null || json_joining_rule(j) is Some, None => true }) && p == "latitude"@ && !(match lookup(o, "latitude"@) { Some(j) => j is Null || json_number(j) is Some, None => true }))
    ||| ((lookup(o, "approved-by-id"@) matches Some(j) && json_u64(j) is Some) && (match lookup(o, "avatar"@) { Some(j) => j is Null || json_str(j) is Some, None => true }) && (lookup(o, "cancelled-by-id"@) matches Some(j) && json_u64(j) is Some) && (lookup(o, "created-at"@) matches Some(j) && json_timestamp(j) is Some) && (match lookup(o, "description"@) { Some(j) => j is Null || json_str(j) is Some, None => true }) && (match lookup(o, "end-dt"@) { Some(j) => j is Null || json_timestamp(j) is Some, None => true }) && (match lookup(o, "forum-link"@) { Some(j) => j is Null || json_str(j) is Some, None => true }) && (match lookup(o, "group-id"@) { Some(j) => j is Null || json_u64(j) is Some, None => true }) && (lookup(o, "group-type"@) matches Some(j) && json_group_type(j) is Some) && (match lookup(o, "joining-rule"@) { Some(j) => j is Null || json_joining_rule(j) is Some, None => true }) && (match lookup(o, "latitude"@) { Some(j) => j is Null || json_number(j) is Some, None => true }) && p == "longitude"@ && !(match lookup(o, "longitude"@) { Some(j) => j is Null || json_number(j) is Some, None => true }))
    ||| ((lookup(o, "approved-by-id"@) matches Some(j) && json_u64(j) is Some) && (match lookup(o, "avatar"@) { Some(j) => j is Null || json_str(j) is Some, None => true }) && (lookup(o, "cancelled-by-id"@) matches Some(j) && json_u64(j) is Some) && (lookup(o, "created-at"@) matches Some(j) && json_timestamp(j) is Some) && (match lookup(o, "description"@) { Some(j) => j is Null || json_str(j) is Some, None => true }) && (match lookup(o, "end-dt"@) { Some(j) => j is Null || json_timestamp(j) is Some, None => true }) && (match lookup(o, "forum-link"@) { Some(j) => j is Null || json_str(j) is Some, None => true }) && (match lookup(o, "group-id"@) { Some(j) => j is Null || json_u64(j) is Some, None => true }) && (lookup(o, "group-type"@) matches Some(j) && json_group_type(j) is Some) && (match lookup(o, "joining-rule"@) { Some(j) => j is Null || json_joining_rule(j) is Some, None => true }) && (match lookup(o, "latitude"@) { Some(j) => j is Null || json_number(j) is Some, None => true }) && (match lookup(o, "longitude"@) { Some(j) => j is Null || json_number(j) is Some, None => true }) && p == "max-member-count"@ && !(match lookup(o, "max-member-count"@) { Some(j) => j is Null || json_u64(j) is Some, None => true }))
    ||| ((lookup(o, "approved-by-id"@) matches Some(j) && json_u64(j) is Some) && (match lookup(o, "avatar"@) { Some(j) => j is Null || json_str(j) is Some, None => true }) && (lookup(o, "cancelled-by-id"@) matches Some(j) && json_u64(j) is Some) && (lookup(o, "created-at"@) matches Some(j) && json_timestamp(j) is Some) && (match lookup(o, "description"@) { Some(j) => j is Null || json_str(j) is Some, None => true }) && (match lookup(o, "end-dt"@) { Some(j) => j is Null || json_timestamp(j) is Some, None => true }) && (match lookup(o, "forum-link"@) { Some(j) => j is Null || json_str(j) is Some, None => true }) && (match lookup(o, "group-id"@) { Some(j) => j is Null || json_u64(j) is Some, None => true }) && (lookup(o, "group-type"@) matches Some(j) && json_group_type(j) is Some) && (match lookup(o, "joining-rule"@) { Some(j) => j is Null || json_joining_rule(j) is Some, None => true }) && (match lookup(o, "latitude"@) { Some(j) => j is Null || json_number(j) is Some, None => true }) && (match lookup(o, "longitude"@) { Some(j) => j is Null || json_number(j) is Some, None => true }) && (match lookup(o, "max-member-count"@) { Some(j) => j is Null || json_u64(j) is Some, None => true }) && p == "member-count"@ && !(match lookup(o, "member-count"@) { Some(j) => j is Null || json_u64(j) is Some, None => true }))
    ||| ((lookup(o, "approved-by-id"@) matches Some(j) && json_u64(j) is Some) && (match lookup(o, "avatar"@) { Some(j) => j is Null || json_str(j) is Some, None => true }) && (lookup(o, "cancelled-by-id"@) matches Some(j) && json_u64(j) is Some) && (lookup(o, "created-at"@) matches Some(j) && json_timestamp(j) is Some) && (match lookup(o, "description"@) { Some(j) => j is Null || json_str(j) is Some, None => true }) && (match lookup(o, "end-dt"@) { Some(j) => j is Null || json_timestamp(j) is Some, None => true }) && (match lookup(o, "forum-link"@) { Some(j) => j is Null || json_str(j) is Some, None => true }) && (match lookup(o, "group-id"@) { Some(j) => j is Null || json_u64(j) is Some, None => true }) && (lookup(o, "group-type"@) matches Some(j) && json_group_type(j) is Some) && (match lookup(o, "joining-rule"@) { Some(j) => j is Null || json_joining_rule(j) is Some, None => true }) && (match lookup(o, "latitude"@) { Some(j) => j is Null || json_number(j) is Some, None => true }) && (match lookup(o, "longitude"@) { Some(j) => j is Null || json_number(j) is Some, None => true }) && (match lookup(o, "max-member-count"@) { Some(j) => j is Null || json_u64(j) is Some, None => true }) && (match lookup(o, "member-count"@) { Some(j) => j is Null || json_u64(j) is Some, None => true }) && p == "name"@ && !(lookup(o, "name"@) matches Some(j) && json_str(j) is Some))
    ||| ((lookup(o, "approved-by-id"@) matches Some(j) && json_u64(j) is Some) && (match lookup(o, "avatar"@) { Some(j) => j is Null || json_str(j) is Some, None => true }) && (lookup(o, "cancelled-by-id"@) matches Some(j) && json_u64(j) is Some) && (lookup(o, "created-at"@) matches Some(j) && json_timestamp(j) is Some) && (match lookup(o, "description"@) { Some(j) => j is Null || json_str(j) is Some, None => true }) && (match lookup(o, "end-dt"@) { Some(j) => j is Null || json_timestamp(j) is Some, None => true }) && (match lookup(o, "forum-link"@) { Some(j) => j is Null || json_str(j) is Some, None => true }) && (match lookup(o, "group-id"@) { Some(j) => j is Null || json_u64(j) is Some, None => true }) && (lookup(o, "group-type"@) matches Some(j) && json_group_type(j) is Some) && (match lookup(o, "joining-rule"@) { Some(j) => j is Null || json_joining_rule(j) is Some, None => true }) && (match lookup(o, "latitude"@) { Some(j) => j is Null || json_number(j) is Some, None => true }) && (match lookup(o, "longitude"@) { Some(j) => j is Null || json_number(j) is Some, None => true }) && (match lookup(o, "max-member-count"@) { Some(j) => j is Null || json_u64(j) is Some, None => true }) && (match lookup(o, "member-count"@) { Some(j) => j is Null || json_u64(j) is Some, None => true }) && (lookup(o, "name"@) matches Some(j) && json_str(j) is Some) && p == "plate"@ && !(match lookup(o, "plate"@) { Some(j) => j is Null || json_str(j) is Some, None => true }))
    ||| ((lookup(o, "approved-by-id"@) matches Some(j) && json_u64(j) is Some) && (match lookup(o, "avatar"@) { Some(j) => j is Null || json_str(j) is Some, None => true }) && (lookup(o, "cancelled-by-id"@) matches Some(j) && json_u64(j) is Some) && (lookup(o, "created-at"@) matches Some(j) && json_timestamp(j) is Some) && (match lookup(o, "description"@) { Some(j) => j is Null || json_str(j) is Some, None => true }) && (match lookup(o, "end-dt"@) { Some(j) => j is Null || json_timestamp(j) is Some, None => true }) && (match lookup(o, "forum-link"@) { Some(j) => j is Null || json_str(j) is Some, None => true }) && (match lookup(o, "group-id"@) { Some(j) => j is Null || json_u64(j) is Some, None => true }) && (lookup(o, "group-type"@) matches Some(j) && json_group_type(j) is Some) && (match lookup(o, "joining-rule"@) { Some(j) => j is Null || json_joining_rule(j) is Some, None => true }) && (match lookup(o, "latitude"@) { Some(j) => j is Null || json_number(j) is Some, None => true }) && (match lookup(o, "longitude"@) { Some(j) => j is Null || json_number(j) is Some, None => true }) && (match lookup(o, "max-member-count"@) { Some(j) => j is Null || json_u64(j) is Some, None => true }) && (match lookup(o, "member-count"@) { Some(j) => j is Null || json_u64(j) is Some, None => true }) && (lookup(o, "name"@) matches Some(j) && json_str(j) is Some) && (match lookup(o, "plate"@) { Some(j) => j is Null || json_str(j) is Some, None => true }) && p == "slug"@ && !(lookup(o, "slug"@) matches Some(j) && json_str(j) is Some))
    ||| ((lookup(o, "approved-by-id"@) matches Some(j) && json_u64(j) is Some) && (match lookup(o, "avatar"@) { Some(j) => j is Null || json_str(j) is Some, None => true }) && (lookup(o, "cancelled-by-id"@) matches Some(j) && json_u64(j) is Some) && (lookup(o, "created-at"@) matches Some(j) && json_timestamp(j) is Some) && (match lookup(o, "description"@) { Some(j) => j is Null || json_str(j) is Some, None => true }) && (match lookup(o, "end-dt"@) { Some(j) => j is Null || json_timestamp(j) is Some, None => true }) && (match lookup(o, "forum-link"@) { Some(j) => j is Null || json_str(j) is Some, None => true }) && (match lookup(o, "group-id"@) { Some(j) => j is Null || json_u64(j) is Some, None => true }) && (lookup(o, "group-type"@) matches Some(j) && json_group_type(j) is Some) && (match lookup(o, "joining-rule"@) { Some(j) => j is Null || json_joining_rule(j) is Some, None => true }) && (match lookup(o, "latitude"@) { Some(j) => j is Null || json_number(j) is Some, None => true }) && (match lookup(o, "longitude"@) { Some(j) => j is Null || json_number(j) is Some, None => true }) && (match lookup(o, "max-member-count"@) { Some(j) => j is Null || json_u64(j) is Some, None => true }) && (match lookup(o, "member-count"@) { Some(j) => j is Null || json_u64(j) is Some, None => true }) && (lookup(o, "name"@) matches Some(j) && json_str(j) is Some) && (match lookup(o, "plate"@) { Some(j) => j is Null || json_str(j) is Some, None => true }) && (lookup(o, "slug"@) matches Some(j) && json_str(j) is Some) && p == "start-dt"@ && !(match lookup(o, "start-dt"@) { Some(j) => j is Null || json_timestamp(j) is Some, None => true }))
    ||| ((lookup(o, "approved-by-id"@) matches Some(j) && json_u64(j) is Some) && (match lookup(o, "avatar"@) { Some(j) => j is Null || json_str(j) is Some, None => true }) && (lookup(o, "cancelled-by-id"@) matches Some(j) && json_u64(j) is Some) && (lookup(o, "created-at"@) matches Some(j) && json_timestamp(j) is Some) && (match lookup(o, "description"@) { Some(j) => j is Null || json_str(j) is Some, None => true }) && (match lookup(o, "end-dt"@) { Some(j) => j is Null || json_timestamp(j) is Some, None => true }) && (match lookup(o, "forum-link"@) { Some(j) => j is Null || json_str(j) is Some, None => true }) && (match lookup(o, "group-id"@) { Some(j) => j is Null || json_u64(j) is Some, None => true }) && (lookup(o, "group-type"@) matches Some(j) && json_group_type(j) is Some) && (match lookup(o, "joining-rule"@) { Some(j) => j is Null || json_joining_rule(j) is Some, None => true }) && (match lookup(o, "latitude"@) { Some(j) => j is Null || json_number(j) is Some, None => true }) && (match lookup(o, "longitude"@) { Some(j) => j is Null || json_number(j) is Some, None => true }) && (match lookup(o, "max-member-count"@) { Some(j) => j is Null || json_u64(j) is Some, None => true }) && (match lookup(o, "member-count"@) { Some(j) => j is Null || json_u64(j) is Some, None => true }) && (lookup(o, "name"@) matches Some(j) && json_str(j) is Some) && (match lookup(o, "plate"@) { Some(j) => j is Null || json_str(j) is Some, None => true }) && (lookup(o, "slug"@) matches Some(j) && json_str(j) is Some) && (match lookup(o, "start-dt"@) { Some(j) => j is Null || json_timestamp(j) is Some, None => true }) && p == "time-zone"@ && !(match lookup(o, "time-zone"@) { Some(j) => j is Null || json_str(j) is Some, None => true }))
    ||| ((lookup(o, "approved-by-id"@) matches Some(j) && json_u64(j) is Some) && (match lookup(o, "avatar"@) { Some(j) => j is Null || json_str(j) is Some, None => true }) && (lookup(o, "cancelled-by-id"@) matches Some(j) && json_u64(j) is Some) && (lookup(o, "created-at"@) matches Some(j) && json_timestamp(j) is Some) && (match lookup(o, "description"@) { Some(j) => j is Null || json_str(j) is Some, None => true }) && (match lookup(o, "end-dt"@) { Some(j) => j is Null || json_timestamp(j) is Some, None => true }) && (match lookup(o, "forum-link"@) { Some(j) => j is Null || json_str(j) is Some, None => true }) && (match lookup(o, "group-id"@) { Some(j) => j is Null || json_u64(j) is Some, None => true }) && (lookup(o, "group-type"@) matches Some(j) && json_group_type(j) is Some) && (match lookup(o, "joining-rule"@) { Some(j) => j is Null || json_joining_rule(j) is Some, None => true }) && (match lookup(o, "latitude"@) { Some(j) => j is Null || json_number(j) is Some, None => true }) && (match lookup(o, "longitude"@) { Some(j) => j is Null || json_number(j) is Some, None => true }) && (match lookup(o, "max-member-count"@) { Some(j) => j is Null || json_u64(j) is Some, None => true }) && (match lookup(o, "member-count"@) { Some(j) => j is Null || json_u64(j) is Some, None => true }) && (lookup(o, "name"@) matches Some(j) && json_str(j) is Some) && (match lookup(o, "plate"@) { Some(j) => j is Null || json_str(j) is Some, None => true }) && (lookup(o, "slug"@) matches Some(j) && json_str(j) is Some) && (match lookup(o, "start-dt"@) { Some(j) => j is Null || json_timestamp(j) is Some, None => true }) && (match lookup(o, "time-zone"@) { Some(j) => j is Null || json_str(j) is Some, None => true }) && p == "updated-at"@ && !(lookup(o, "updated-at"@) matches Some(j) && json_timestamp(j) is Some))
    ||| ((lookup(o, "approved-by-id"@) matches Some(j) && json_u64(j) is Some) && (match lookup(o, "avatar"@) { Some(j) => j is Null || json_str(j) is Some, None => true }) && (lookup(o, "cancelled-by-id"@) matches Some(j) && json_u64(j) is Some) && (lookup(o, "created-at"@) matches Some(j) && json_timestamp(j) is Some) && (match lookup(o, "description"@) { Some(j) => j is Null || json_str(j) is Some, None => true }) && (match lookup(o, "end-dt"@) { Some(j) => j is Null || json_timestamp(j) is Some, None => true }) && (match lookup(o, "forum-link"@) { Some(j) => j is Null || json_str(j) is Some, None => true }) && (match lookup(o, "group-id"@) { Some(j) => j is Null || json_u64(j) is Some, None => true }) && (lookup(o, "group-type"@) matches Some(j) && json_group_type(j) is Some) && (match lookup(o, "joining-rule"@) { Some(j) => j is Null || json_joining_rule(j) is Some, None => true }) && (match lookup(o, "latitude"@) { Some(j) => j is Null || json_number(j) is Some, None => true }) && (match lookup(o, "longitude"@) { Some(j) => j is Null || json_number(j) is Some, None => true }) && (match lookup(o, "max-member-count"@) { Some(j) => j is Null || json_u64(j) is Some, None => true }) && (match lookup(o, "member-count"@) { Some(j) => j is Null || json_u64(j) is Some, None => true }) && (lookup(o, "name"@) matches Some(j) && json_str(j) is Some) && (match lookup(o, "plate"@) { Some(j) => j is Null || json_str(j) is Some, None => true }) && (lookup(o, "slug"@) matches Some(j) && json_str(j) is Some) && (match lookup(o, "start-dt"@) { Some(j) => j is Null || json_timestamp(j) is Some, None => true }) && (match lookup(o, "time-zone"@) { Some(j) => j is Null || json_str(j) is Some, None => true }) && (lookup(o, "updated-at"@) matches Some(j) && json_timestamp(j) is Some) && p == "url"@ && !(match lookup(o, "url"@) { Some(j) => j is Null || json_str(j) is Some, None => true }))
    ||| ((lookup(o, "approved-by-id"@) matches Some(j) && json_u64(j) is Some) && (match lookup(o, "avatar"@) { Some(j) => j is Null || json_str(j) is Some, None => true }) && (lookup(o, "cancelled-by-id"@) matches Some(j) && json_u64(j) is Some) && (lookup(o, "created-at"@) matches Some(j) && json_timestamp(j) is Some) && (match lookup(o, "description"@) { Some(j) => j is Null || json_str(j) is Some, None => true }) && (match lookup(o, "end-dt"@) { Some(j) => j is Null || json_timestamp(j) is Some, None => true }) && (match lookup(o, "forum-link"@) { Some(j) => j is Null || json_str(j) is Some, None => true }) && (match lookup(o, "group-id"@) { Some(j) => j is Null || json_u64(j) is Some, None => true }) && (lookup(o, "group-type"@) matches Some(j) && json_group_type(j) is Some) && (match lookup(o, "joining-rule"@) { Some(j) => j is Null || json_joining_rule(j) is Some, None => true }) && (match lookup(o, "latitude"@) { Some(j) => j is Null || json_number(j) is Some, None => true }) && (match lookup(o, "longitude"@) { Some(j) => j is Null || json_number(j) is Some, None => true }) && (match lookup(o, "max-member-count"@) { Some(j) => j is Null || json_u64(j) is Some, None => true }) && (match lookup(o, "member-count"@) { Some(j) => j is Null || json_u64(j) is Some, None => true }) && (lookup(o, "name"@) matches Some(j) && json_str(j) is Some) && (match lookup(o, "plate"@) { Some(j) => j is Null || json_str(j) is Some, None => true }) && (lookup(o, "slug"@) matches Some(j) && json_str(j) is Some) && (match lookup(o, "start-dt"@) { Some(j) => j is Null || json_timestamp(j) is Some, None => true }) && (match lookup(o, "time-zone"@) { Some(j) => j is Null || json_str(j) is Some, None => true }) && (lookup(o, "updated-at"@) matches Some(j) && json_timestamp(j) is Some) && (match lookup(o, "url"@) { Some(j) => j is Null || json_str(j) is Some, None => true }) && p == "user-id"@ && !(match lookup(o, "user-id"@) { Some(j) => j is Null || json_u64(j) is Some, None => true }))
}

/// Whether `p` is the key a failed read of a GroupData object names: the
/// first unknown key, else the first unreadable field.
pub open spec fn group_data_error_at(o: Seq<(String, Json)>, p: Seq<char>) -> bool {
    if keys_within(o, seq!["approved-by-id", "avatar", "cancelled-by-id", "created-at", "description", "end-dt", "forum-link", "group-id", "group-type", "joining-rule", "latitude", "longitude", "max-member-count", "member-count", "name", "plate", "slug", "start-dt", "time-zone", "updated-at", "url", "user-id"]) {
        group_data_failed_at(o, p)
    } else {
        !is_one_of(p, seq!["approved-by-id", "avatar", "cancelled-by-id", "created-at", "description", "end-dt", "forum-link", "group-id", "group-type", "joining-rule", "latitude", "longitude", "max-member-count", "member-count", "name", "plate", "slug", "start-dt", "time-zone", "updated-at", "url", "user-id"])
    }
}

/// Whether a wire object is a readable GroupData: no unknown key, and every field readable.
pub open spec fn group_data_wire_ok(j: Json) -> bool {
    match j {
        Json::Object(e) => keys_within(e@, seq!["approved-by-id", "avatar", "cancelled-by-id", "created-at", "description", "end-dt", "forum-link", "group-id", "group-type", "joining-rule", "latitude", "longitude", "max-member-count", "member-count", "name", "plate", "slug", "start-dt", "time-zone", "updated-at", "url", "user-id"]) && group_data_fields_ok(e@),
        _ => false,
    }
}

impl GroupData {
    /// Reads the fields from an object's entries; keys of other fields are ignored.
    fn from_fields(o: &Vec<(String, Json)>) -> (r: Result<GroupData, DecodeError>)
        ensures
            r matches Ok(d) ==> group_data_read_from(o@, d),
            group_data_fields_ok(o@) <==> r is Ok,
            r matches Err(e) ==> e.path@.len() == 1 && group_data_failed_at(o@, e.path@[0]@),
    {
        let approved_by_id = field_u64(o, "approved-by-id")?;
        let avatar = opt_field_str(o, "avatar")?;
        let cancelled_by_id = field_u64(o, "cancelled-by-id")?;
        let created_at = field_timestamp(o, "created-at")?;
        let description = opt_field_str(o, "description")?;
        let end_dt = opt_field_timestamp(o, "end-dt")?;
        let forum_link = opt_field_str(o, "forum-link")?;
        let group_id = opt_field_u64(o, "group-id")?;
        let group_type = field_group_type(o, "group-type")?;
        let joining_rule = opt_field_joining_rule(o, "joining-rule")?;
        let latitude = opt_field_number(o, "latitude")?;
        let longitude = opt_field_number(o, "longitude")?;
        let max_member_count = opt_field_u64(o, "max-member-count")?;
        let member_count = opt_field_u64(o, "member-count")?;
        let name = field_str(o, "name")?;
        let plate = opt_field_str(o, "plate")?;
        let slug = field_str(o, "slug")?;
        let start_dt = opt_field_timestamp(o, "start-dt")?;
        let time_zone = opt_field_str(o, "time-zone")?;
        let updated_at = field_timestamp(o, "updated-at")?;
        let url = opt_field_str(o, "url")?;
        let user_id = opt_field_u64(o, "user-id")?;
        Ok(GroupData { approved_by_id, avatar, cancelled_by_id, created_at, description, end_dt, forum_link, group_id, group_type, joining_rule, latitude, longitude, max_member_count, member_count, name, plate, slug, start_dt, time_zone, updated_at, url, user_id })
    }

    /// Appends the fields to an object's entries, in declaration order.
    fn push_fields(&self, e: &mut Vec<(String, Json)>)
        requires
            old(e)@.len() == 0,
        ensures
            group_data_written_as(final(e)@, *self),
    {
        e.push((String::from_str("approved-by-id"), u64_json(&self.approved_by_id)));
        e.push((String::from_str("avatar"), opt_str_json(&self.avatar)));
        e.push((String::from_str("cancelled-by-id"), u64_json(&self.cancelled_by_id)));
        e.push((String::from_str("created-at"), timestamp_json(&self.created_at)));
        e.push((String::from_str("description"), opt_str_json(&self.description)));
        e.push((String::from_str("end-dt"), opt_timestamp_json(&self.end_dt)));
        e.push((String::from_str("forum-link"), opt_str_json(&self.forum_link)));
        e.push((String::from_str("group-id"), opt_u64_json(&self.group_id)));
        e.push((String::from_str("group-type"), group_type_json(&self.group_type)));
        e.push((String::from_str("joining-rule"), opt_joining_rule_json(&self.joining_rule)));
        e.push((String::from_str("latitude"), opt_number_json(&self.latitude)));
        e.push((String::from_str("longitude"), opt_number_json(&self.longitude)));
        e.push((String::from_str("max-member-count"), opt_u64_json(&self.max_member_count)));
        e.push((String::from_str("member-count"), opt_u64_json(&self.member_count)));
        e.push((String::from_str("name"), str_json(&self.name)));
        e.push((String::from_str("plate"), opt_str_json(&self.plate)));
        e.push((String::from_str("slug"), str_json(&self.slug)));
        e.push((String::from_str("start-dt"), opt_timestamp_json(&self.start_dt)));
        e.push((String::from_str("time-zone"), opt_str_json(&self.time_zone)));
        e.push((String::from_str("updated-at"), timestamp_json(&self.updated_at)));
        e.push((String::from_str("url"), opt_str_json(&self.url)));
        e.push((String::from_str("user-id"), opt_u64_json(&self.user_id)));
    }

    /// Reads an object of this shape; a key outside the schema is refused.
    pub fn from_json(j: &Json) -> (r: Result<GroupData, DecodeError>)
        ensures
            !(j is Object) ==> r is Err,
            r matches Ok(d) ==> (j matches Json::Object(e) && group_data_read_from(e@, d)),
            group_data_wire_ok(*j) <==> r is Ok,
            r matches Err(e) ==> match *j {
                Json::Object(o) => e.path@.len() == 1 && group_data_error_at(o@, e.path@[0]@),
                _ => e.path@.len() == 0,
            },
            r is Ok ==> (j matches Json::Object(e) && keys_within(e@, seq!["approved-by-id", "avatar", "cancelled-by-id", "created-at", "description", "end-dt", "forum-link", "group-id", "group-type", "joining-rule", "latitude", "longitude", "max-member-count", "member-count", "name", "plate", "slug", "start-dt", "time-zone", "updated-at", "url", "user-id"])),
    {
        match j {
            Json::Object(o) => {
                check_keys(o, &vec!["approved-by-id", "avatar", "cancelled-by-id", "created-at", "description", "end-dt", "forum-link", "group-id", "group-type", "joining-rule", "latitude", "longitude", "max-member-count", "member-count", "name", "plate", "slug", "start-dt", "time-zone", "updated-at", "url", "user-id"])?;
                GroupData::from_fields(o)
            },
            _ => Err(not_an_object()),
        }
    }

    /// Writes an object of this shape.
    pub fn to_json(&self) -> (r: Json)
        ensures
            r matches Json::Object(e) && group_data_written_as(e@, *self),
    {
        let mut e: Vec<(String, Json)> = Vec::new();
        self.push_fields(&mut e);
        Json::Object(e)
    }
}

/// The attributes of a link from a group to an outside page.
#[derive(Clone, Debug, PartialEq)]
pub struct GroupExternalLinkData {
    pub group_id: u64,
    pub label: Option<String>,
    pub url: String,
}

/// Whether each plain field of `d` is what the entries hold under its key.
pub open spec fn group_external_link_data_read_from(o: Seq<(String, Json)>, d: GroupExternalLinkData) -> bool {
    &&& (lookup(o, "group-id"@) matches Some(j) && json_u64(j) == Some(d.group_id))
    &&& match d.label {
        Some(v) => lookup(o, "label"@) matches Some(j) && json_str(j) == Some(v@),
        None => lookup(o, "label"@) is None || lookup(o, "label"@) == Some(Json::Null),
    }
    &&& (lookup(o, "url"@) matches Some(j) && json_str(j) == Some(d.url@))
}

/// Whether the entries are the fields of `d`, in order, each under its key in its wire form.
pub open spec fn group_external_link_data_written_as(e: Seq<(String, Json)>, d: GroupExternalLinkData) -> bool {
    &&& e.len() == 3
    &&& e[0].0@ == "group-id"@ && writes_u64(e[0].1, d.group_id)
    &&& e[1].0@ == "label"@ && match d.label {
        Some(v) => writes_str(e[1].1, v),
        None => e[1].1 == Json::Null,
    }
    &&& e[2].0@ == "url"@ && writes_str(e[2].1, d.url)
}

/// Whether every field can be read from the entries.
pub open spec fn group_external_link_data_fields_ok(o: Seq<(String, Json)>) -> bool {
    &&& (lookup(o, "group-id"@) matches Some(j) && json_u64(j) is Some)
    &&& match lookup(o, "label"@) {
        Some(j) => j is Null || json_str(j) is Some,
        None => true,
    }
    &&& (lookup(o, "url"@) matches Some(j) && json_str(j) is Some)
}

/// Whether `p` is the key a failed read of the fields names: the first
/// field, in schema order, that cannot be read.
pub open spec fn group_external_link_data_failed_at(o: Seq<(String, Json)>, p: Seq<char>) -> bool {
    ||| (p == "group-id"@ && !(lookup(o, "group-id"@) matches Some(j) && json_u64(j) is Some))
    ||| ((lookup(o, "group-id"@) matches Some(j) && json_u64(j) is Some) && p == "label"@ && !(match lookup(o, "label"@) { Some(j) => j is Null || json_str(j) is Some, None => true }))
    ||| ((lookup(o, "group-id"@) matches Some(j) && json_u64(j) is Some) && (match lookup(o, "label"@) { Some(j) => j is Null || json_str(j) is Some, None => true }) && p == "url"@ && !(lookup(o, "url"@) matches Some(j) && json_str(j) is Some))
}

/// Whether `p` is the key a failed read of a GroupExternalLinkData object names: the
/// first unknown key, else the first unreadable field.
pub open spec fn group_external_link_data_error_at(o: Seq<(String, Json)>, p: Seq<char>) -> bool {
    if keys_within(o, seq!["group-id", "label", "url"]) {
        group_external_link_data_failed_at(o, p)
    } else {
        !is_one_of(p, seq!["group-id", "label", "url"])
    }
}

/// Whether a wire object is a readable GroupExternalLinkData: no unknown key, and every field readable.
pub open spec fn group_external_link_data_wire_ok(j: Json) -> bool {
    match j {
        Json::Object(e) => keys_within(e@, seq!["group-id", "label", "url"]) && group_external_link_data_fields_ok(e@),
        _ => false,
    }
}

impl GroupExternalLinkData {
    /// Reads the fields from an object's entries; keys of other fields are ignored.
    fn from_fields(o: &Vec<(String, Json)>) -> (r: Result<GroupExternalLinkData, DecodeError>)
        ensures
            r matches Ok(d) ==> group_external_link_data_read_from(o@, d),
            group_external_link_data_fields_ok(o@) <==> r is Ok,
            r matches Err(e) ==> e.path@.len() == 1 && group_external_link_data_failed_at(o@, e.path@[0]@),
    {
        let group_id = field_u64(o, "group-id")?;
        let label = opt_field_str(o, "label")?;
        let url = field_str(o, "url")?;
        Ok(GroupExternalLinkData { group_id, label, url })
    }

    /// Appends the fields to an object's entries, in declaration order.
    fn push_fields(&self, e: &mut Vec<(String, Json)>)
        requires
            old(e)@.len() == 0,
        ensures
            group_external_link_data_written_as(final(e)@, *self),
    {
        e.push((String::from_str("group-id"), u64_json(&self.group_id)));
        e.push((String::from_str("label"), opt_str_json(&self.label)));
        e.push((String::from_str("url"), str_json(&self.url)));
    }

    /// Reads an object of this shape; a key outside the schema is refused.
    pub fn from_json(j: &Json) -> (r: Result<GroupExternalLinkData, DecodeError>)
        ensures
            !(j is Object) ==> r is Err,
            r matches Ok(d) ==> (j matches Json::Object(e) && group_external_link_data_read_from(e@, d)),
            group_external_link_data_wire_ok(*j) <==> r is Ok,
            r matches Err(e) ==> match *j {
                Json::Object(o) => e.path@.len() == 1 && group_external_link_data_error_at(o@, e.path@[0]@),
                _ => e.path@.len() == 0,
            },
            r is Ok ==> (j matches Json::Object(e) && keys_within(e@, seq!["group-id", "label", "url"])),
    {
        match j {
            Json::Object(o) => {
                check_keys(o, &vec!["group-id", "label", "url"])?;
                GroupExternalLinkData::from_fields(o)
            },
            _ => Err(not_an_object()),
        }
    }

    /// Writes an object of this shape.
    pub fn to_json(&self) -> (r: Json)
        ensures
            r matches Json::Object(e) && group_external_link_data_written_as(e@, *self),
    {
        let mut e: Vec<(String, Json)> = Vec::new();
        self.push_fields(&mut e);
        Json::Object(e)
    }
}

/// The attributes of a place. Coordinates keep the text of their JSON numbers; a postal code that is not a numeral in a string is read as absent.
#[derive(Clone, Debug, PartialEq)]
pub struct LocationData {
    pub city: String,
    pub country: String,
    pub county: Option<String>,
    pub formatted_address: Option<String>,
    pub latitude: String,
    pub longitude: String,
    pub map_url: Option<String>,
    pub municipality: Option<String>,
    pub name: String,
    pub neighborhood: Option<String>,
    pub postal_code: Option<u64>,
    pub state: String,
    pub street1: Option<String>,
    pub street2: Option<String>,
    pub utc_offset: Option<i64>,
}

/// Whether each plain field of `d` is what the entries hold under its key.
pub open spec fn location_data_read_from(o: Seq<(String, Json)>, d: LocationData) -> bool {
    &&& (lookup(o, "city"@) matches Some(j) && json_str(j) == Some(d.city@))
    &&& (lookup(o, "country"@) matches Some(j) && json_str(j) == Some(d.country@))
    &&& match d.county {
        Some(v) => lookup(o, "county"@) matches Some(j) && json_str(j) == Some(v@),
        None => lookup(o, "county"@) is None || lookup(o, "county"@) == Some(Json::Null),
    }
    &&& match d.formatted_address {
        Some(v) => lookup(o, "formatted-address"@) matches Some(j) && json_str(j) == Some(v@),
        None => lookup(o, "formatted-address"@) is None || lookup(o, "formatted-address"@) == Some(Json::Null),
    }
    &&& (lookup(o, "latitude"@) matches Some(j) && json_number(j) == Some(d.latitude@))
    &&& (lookup(o, "longitude"@) matches Some(j) && json_number(j) == Some(d.longitude@))
    &&& match d.map_url {
        Some(v) => lookup(o, "map-url"@) matches Some(j) && json_str(j) == Some(v@),
        None => lookup(o, "map-url"@) is None || lookup(o, "map-url"@) == Some(Json::Null),
    }
    &&& match d.municipality {
        Some(v) => lookup(o, "municipality"@) matches Some(j) && json_str(j) == Some(v@),
        None => lookup(o, "municipality"@) is None || lookup(o, "municipality"@) == Some(Json::Null),
    }
    &&& (lookup(o, "name"@) matches Some(j) && json_str(j) == Some(d.name@))
    &&& match d.neighborhood {
        Some(v) => lookup(o, "neighborhood"@) matches Some(j) && json_str(j) == Some(v@),
        None => lookup(o, "neighborhood"@) is None || lookup(o, "neighborhood"@) == Some(Json::Null),
    }
    &&& (lookup(o, "state"@) matches Some(j) && json_str(j) == Some(d.state@))
    &&& match d.street1 {
        Some(v) => lookup(o, "street1"@) matches Some(j) && json_str(j) == Some(v@),
        None => lookup(o, "street1"@) is None || lookup(o, "street1"@) == Some(Json::Null),
    }
    &&& match d.street2 {
        Some(v) => lookup(o, "street2"@) matches Some(j) && json_str(j) == Some(v@),
        None => lookup(o, "street2"@) is None || lookup(o, "street2"@) == Some(Json::Null),
    }
    &&& match d.utc_offset {
        Some(v) => lookup(o, "utc-offset"@) matches Some(j) && json_i64(j) == Some(v),
        None => lookup(o, "utc-offset"@) is None || lookup(o, "utc-offset"@) == Some(Json::Null),
    }
}

/// Whether the entries are the fields of `d`, in order, each under its key in its wire form.
pub open spec fn location_data_written_as(e: Seq<(String, Json)>, d: LocationData) -> bool {
    &&& e.len() == 15
    &&& e[0].0@ == "city"@ && writes_str(e[0].1, d.city)
    &&& e[1].0@ == "country"@ && writes_str(e[1].1, d.country)
    &&& e[2].0@ == "county"@ && match d.county {
        Some(v) => writes_str(e[2].1, v),
        None => e[2].1 == Json::Null,
    }
    &&& e[3].0@ == "formatted-address"@ && match d.formatted_address {
        Some(v) => writes_str(e[3].1, v),
        None => e[3].1 == Json::Null,
    }
    &&& e[4].0@ == "latitude"@ && writes_number(e[4].1, d.latitude)
    &&& e[5].0@ == "longitude"@ && writes_number(e[5].1, d.longitude)
    &&& e[6].0@ == "map-url"@ && match d.map_url {
        Some(v) => writes_str(e[6].1, v),
        None => e[6].1 == Json::Null,
    }
    &&& e[7].0@ == "municipality"@ && match d.municipality {
        Some(v) => writes_str(e[7].1, v),
        None => e[7].1 == Json::Null,
    }
    &&& e[8].0@ == "name"@ && writes_str(e[8].1, d.name)
    &&& e[9].0@ == "neighborhood"@ && match d.neighborhood {
        Some(v) => writes_str(e[9].1, v),
        None => e[9].1 == Json::Null,
    }
    &&& e[10].0@ == "postal-code"@ && match d.postal_code {
        Some(v) => writes_str_u64(e[10].1, v),
        None => e[10].1 == Json::Null,
    }
    &&& e[11].0@ == "state"@ && writes_str(e[11].1, d.state)
    &&& e[12].0@ == "street1"@ && match d.street1 {
        Some(v) => writes_str(e[12].1, v),
        None => e[12].1 == Json::Null,
    }
    &&& e[13].0@ == "street2"@ && match d.street2 {
        Some(v) => writes_str(e[13].1, v),
        None => e[13].1 == Json::Null,
    }
    &&& e[14].0@ == "utc-offset"@ && match d.utc_offset {
        Some(v) => writes_i64(e[14].1, v),
        None => e[14].1 == Json::Null,
    }
}

/// Whether every field can be read from the entries.
pub open spec fn location_data_fields_ok(o: Seq<(String, Json)>) -> bool {
    &&& (lookup(o, "city"@) matches Some(j) && json_str(j) is Some)
    &&& (lookup(o, "country"@) matches Some(j) && json_str(j) is Some)
    &&& match lookup(o, "county"@) {
        Some(j) => j is Null || json_str(j) is Some,
        None => true,
    }
    &&& match lookup(o, "formatted-address"@) {
        Some(j) => j is Null || json_str(j) is Some,
        None => true,
    }
    &&& (lookup(o, "latitude"@) matches Some(j) && json_number(j) is Some)
    &&& (lookup(o, "longitude"@) matches Some(j) && json_number(j) is Some)
    &&& match lookup(o, "map-url"@) {
        Some(j) => j is Null || json_str(j) is Some,
        None => true,
    }
    &&& match lookup(o, "municipality"@) {
        Some(j) => j is Null || json_str(j) is Some,
        None => true,
    }
    &&& (lookup(o, "name"@) matches Some(j) && json_str(j) is Some)
    &&& match lookup(o, "neighborhood"@) {
        Some(j) => j is Null || json_str(j) is Some,
        None => true,
    }
    &&& lookup(o, "postal-code"@) is Some
    &&& (lookup(o, "state"@) matches Some(j) && json_str(j) is Some)
    &&& match lookup(o, "street1"@) {
        Some(j) => j is Null || json_str(j) is Some,
        None => true,
    }
    &&& match lookup(o, "street2"@) {
        Some(j) => j is Null || json_str(j) is Some,
        None => true,
    }
    &&& match lookup(o, "utc-offset"@) {
        Some(j) => j is Null || json_i64(j) is Some,
        None => true,
    }
}

/// Whether `p` is the key a failed read of the fields names: the first
/// field, in schema order, that cannot be read.
pub open spec fn location_data_failed_at(o: Seq<(String, Json)>, p: Seq<char>) -> bool {
    ||| (p == "city"@ && !(lookup(o, "city"@) matches Some(j) && json_str(j) is Some))
    ||| ((lookup(o, "city"@) matches Some(j) && json_str(j) is Some) && p == "country"@ && !(lookup(o, "country"@) matches Some(j) && json_str(j) is Some))
    ||| ((lookup(o, "city"@) matches Some(j) && json_str(j) is Some) && (lookup(o, "country"@) matches Some(j) && json_str(j) is Some) && p == "county"@ && !(match lookup(o, "county"@) { Some(j) => j is Null || json_str(j) is Some, None => true }))
    ||| ((lookup(o, "city"@) matches Some(j) && json_str(j) is Some) && (lookup(o, "country"@) matches Some(j) && json_str(j) is Some) && (match lookup(o, "county"@) { Some(j) => j is Null || json_str(j) is Some, None => true }) && p == "formatted-address"@ && !(match lookup(o, "formatted-address"@) { Some(j) => j is Null || json_str(j) is Some, None => true }))
    ||| ((lookup(o, "city"@) matches Some(j) && json_str(j) is Some) && (lookup(o, "country"@) matches Some(j) && json_str(j) is Some) && (match lookup(o, "county"@) { Some(j) => j is Null || json_str(j) is Some, None => true }) && (match lookup(o, "formatted-address"@) { Some(j) => j is Null || json_str(j) is Some, None => true }) && p == "latitude"@ && !(lookup(o, "latitude"@) matches Some(j) && json_number(j) is Some))
    ||| ((lookup(o, "city"@) matches Some(j) && json_str(j) is Some) && (lookup(o, "country"@) matches Some(j) && json_str(j) is Some) && (match lookup(o, "county"@) { Some(j) => j is Null || json_str(j) is Some, None => true }) && (match lookup(o, "formatted-address"@) { Some(j) => j is Null || json_str(j) is Some, None => true }) && (lookup(o, "latitude"@) matches Some(j) && json_number(j) is Some) && p == "longitude"@ && !(lookup(o, "longitude"@) matches Some(j) && json_number(j) is Some))
    ||| ((lookup(o, "city"@) matches Some(j) && json_str(j) is Some) && (lookup(o, "country"@) matches Some(j) && json_str(j) is Some) && (match lookup(o, "county"@) { Some(j) => j is Null || json_str(j) is Some, None => true }) && (match lookup(o, "formatted-address"@) { Some(j) => j is Null || json_str(j) is Some, None => true }) && (lookup(o, "latitude"@) matches Some(j) && json_number(j) is Some) && (lookup(o, "longitude"@) matches Some(j) && json_number(j) is Some) && p == "map-url"@ && !(match lookup(o, "map-url"@) { Some(j) => j is Null || json_str(j) is Some, None => true }))
    ||| ((lookup(o, "city"@) matches Some(j) && json_str(j) is Some) && (lookup(o, "country"@) matches Some(j) && json_str(j) is Some) && (match lookup(o, "county"@) { Some(j) => j is Null || json_str(j) is Some, None => true }) && (match lookup(o, "formatted-address"@) { Some(j) => j is Null || json_str(j) is Some, None => true }) && (lookup(o, "latitude"@) matches Some(j) && json_number(j) is Some) && (lookup(o, "longitude"@) matches Some(j) && json_number(j) is Some) && (match lookup(o, "map-url"@) { Some(j) => j is Null || json_str(j) is Some, None => true }) && p == "municipality"@ && !(match lookup(o, "municipality"@) { Some(j) => j is Null || json_str(j) is Some, None => true }))
    ||| ((lookup(o, "city"@) matches Some(j) && json_str(j) is Some) && (lookup(o, "country"@) matches Some(j) && json_str(j) is Some) && (match lookup(o, "county"@) { Some(j) => j is Null || json_str(j) is Some, None => true }) && (match lookup(o, "formatted-address"@) { Some(j) => j is Null || json_str(j) is Some, None => true }) && (lookup(o, "latitude"@) matches Some(j) && json_number(j) is Some) && (lookup(o, "longitude"@) matches Some(j) && json_number(j) is Some) && (match lookup(o, "map-url"@) { Some(j) => j is Null || json_str(j) is Some, None => true }) && (match lookup(o, "municipality"@) { Some(j) => j is Null || json_str(j) is Some, None => true }) && p == "name"@ && !(lookup(o, "name"@) matches Some(j) && json_str(j) is Some))
    ||| ((lookup(o, "city"@) matches Some(j) && json_str(j) is Some) && (lookup(o, "country"@) matches Some(j) && json_str(j) is Some) && (match lookup(o, "county"@) { Some(j) => j is Null || json_str(j) is Some, None => true }) && (match lookup(o, "formatted-address"@) { Some(j) => j is Null || json_str(j) is Some, None => true }) && (lookup(o, "latitude"@) matches Some(j) && json_number(j) is Some) && (lookup(o, "longitude"@) matches Some(j) && json_number(j) is Some) && (match lookup(o, "map-url"@) { Some(j) => j is Null || json_str(j) is Some, None => true }) && (match lookup(o, "municipality"@) { Some(j) => j is Null || json_str(j) is Some, None => true }) && (lookup(o, "name"@) matches Some(j) && json_str(j) is Some) && p == "neighborhood"@ && !(match lookup(o, "neighborhood"@) { Some(j) => j is Null || json_str(j) is Some, None => true }))
    ||| ((lookup(o, "city"@) matches Some(j) && json_str(j) is Some) && (lookup(o, "country"@) matches Some(j) && json_str(j) is Some) && (match lookup(o, "county"@) { Some(j) => j is Null || json_str(j) is Some, None => true }) && (match lookup(o, "formatted-address"@) { Some(j) => j is Null || json_str(j) is Some, None => true }) && (lookup(o, "latitude"@) matches Some(j) && json_number(j) is Some) && (lookup(o, "longitude"@) matches Some(j) && json_number(j) is Some) && (match lookup(o, "map-url"@) { Some(j) => j is Null || json_str(j) is Some, None => true }) && (match lookup(o, "municipality"@) { Some(j) => j is Null || json_str(j) is Some, None => true }) && (lookup(o, "name"@) matches Some(j) && json_str(j) is Some) && (match lookup(o, "neighborhood"@) { Some(j) => j is Null || json_str(j) is Some, None => true }) && p == "postal-code"@ && !(lookup(o, "postal-code"@) is Some))
    ||| ((lookup(o, "city"@) matches Some(j) && json_str(j) is Some) && (lookup(o, "country"@) matches Some(j) && json_str(j) is Some) && (match lookup(o, "county"@) { Some(j) => j is Null || json_str(j) is Some, None => true }) && (match lookup(o, "formatted-address"@) { Some(j) => j is Null || json_str(j) is Some, None => true }) && (lookup(o, "latitude"@) matches Some(j) && json_number(j) is Some) && (lookup(o, "longitude"@) matches Some(j) && json_number(j) is Some) && (match lookup(o, "map-url"@) { Some(j) => j is Null || json_str(j) is Some, None => true }) && (match lookup(o, "municipality"@) { Some(j) => j is Null || json_str(j) is Some, None => true }) && (lookup(o, "name"@) matches Some(j) && json_str(j) is Some) && (match lookup(o, "neighborhood"@) { Some(j) => j is Null || json_str(j) is Some, None => true }) && (lookup(o, "postal-code"@) is Some) && p == "state"@ && !(lookup(o, "state"@) matches Some(j) && json_str(j) is Some))
    ||| ((lookup(o, "city"@) matches Some(j) && json_str(j) is Some) && (lookup(o, "country"@) matches Some(j) && json_str(j) is Some) && (match lookup(o, "county"@) { Some(j) => j is Null || json_str(j) is Some, None => true }) && (match lookup(o, "formatted-address"@) { Some(j) => j is Null || json_str(j) is Some, None => true }) && (lookup(o, "latitude"@) matches Some(j) && json_number(j) is Some) && (lookup(o, "longitude"@) matches Some(j) && json_number(j) is Some) && (match lookup(o, "map-url"@) { Some(j) => j is Null || json_str(j) is Some, None => true }) && (match lookup(o, "municipality"@) { Some(j) => j is Null || json_str(j) is Some, None => true }) && (lookup(o, "name"@) matches Some(j) && json_str(j) is Some) && (match lookup(o, "neighborhood"@) { Some(j) => j is Null || json_str(j) is Some, None => true }) && (lookup(o, "postal-code"@) is Some) && (lookup(o, "state"@) matches Some(j) && json_str(j) is Some) && p == "street1"@ && !(match lookup(o, "street1"@) { Some(j) => j is Null || json_str(j) is Some, None => true }))
    ||| ((lookup(o, "city"@) matches Some(j) && json_str(j) is Some) && (lookup(o, "country"@) matches Some(j) && json_str(j) is Some) && (match lookup(o, "county"@) { Some(j) => j is Null || json_str(j) is Some, None => true }) && (match lookup(o, "formatted-address"@) { Some(j) => j is Null || json_str(j) is Some, None => true }) && (lookup(o, "latitude"@) matches Some(j) && json_number(j) is Some) && (lookup(o, "longitude"@) matches Some(j) && json_number(j) is Some) && (match lookup(o, "map-url"@) { Some(j) => j is Null || json_str(j) is Some, None => true }) && (match lookup(o, "municipality"@) { Some(j) => j is Null || json_str(j) is Some, None => true }) && (lookup(o, "name"@) matches Some(j) && json_str(j) is Some) && (match lookup(o, "neighborhood"@) { Some(j) => j is Null || json_str(j) is Some, None => true }) && (lookup(o, "postal-code"@) is Some) && (lookup(o, "state"@) matches Some(j) && json_str(j) is Some) && (match lookup(o, "street1"@) { Some(j) => j is Null || json_str(j) is Some, None => true }) && p == "street2"@ && !(match lookup(o, "street2"@) { Some(j) => j is Null || json_str(j) is Some, None => true }))
    ||| ((lookup(o, "city"@) matches Some(j) && json_str(j) is Some) && (lookup(o, "country"@) matches Some(j) && json_str(j) is Some) && (match lookup(o, "county"@) { Some(j) => j is Null || json_str(j) is Some, None => true }) && (match lookup(o, "formatted-address"@) { Some(j) => j is Null || json_str(j) is Some, None => true }) && (lookup(o, "latitude"@) matches Some(j) && json_number(j) is Some) && (lookup(o, "longitude"@) matches Some(j) && json_number(j) is Some) && (match lookup(o, "map-url"@) { Some(j) => j is Null || json_str(j) is Some, None => true }) && (match lookup(o, "municipality"@) { Some(j) => j is Null || json_str(j) is Some, None => true }) && (lookup(o, "name"@) matches Some(j) && json_str(j) is Some) && (match lookup(o, "neighborhood"@) { Some(j) => j is Null || json_str(j) is Some, None => true }) && (lookup(o, "postal-code"@) is Some) && (lookup(o, "state"@) matches Some(j) && json_str(j) is Some) && (match lookup(o, "street1"@) { Some(j) => j is Null || json_str(j) is Some, None => true }) && (match lookup(o, "street2"@) { Some(j) => j is Null || json_str(j) is Some, None => true }) && p == "utc-offset"@ && !(match lookup(o, "utc-offset"@) { Some(j) => j is Null || json_i64(j) is Some, None => true }))
}

/// Whether `p` is the key a failed read of a LocationData object names: the
/// Whether `p` is the key a failed read of a LocationData object names: the first unreadable field.
pub open spec fn location_data_error_at(o: Seq<(String, Json)>, p: Seq<char>) -> bool {
    location_data_failed_at(o, p)
}

/// Whether a wire object is a readable LocationData: every field readable.
pub open spec fn location_data_wire_ok(j: Json) -> bool {
    match j {
        Json::Object(e) => location_data_fields_ok(e@),
        _ => false,
    }
}

impl LocationData {
    /// Reads the fields from an object's entries; keys of other fields are ignored.
    fn from_fields(o: &Vec<(String, Json)>) -> (r: Result<LocationData, DecodeError>)
        ensures
            r matches Ok(d) ==> location_data_read_from(o@, d),
            location_data_fields_ok(o@) <==> r is Ok,
            r matches Err(e) ==> e.path@.len() == 1 && location_data_failed_at(o@, e.path@[0]@),
    {
        let city = field_str(o, "city")?;
        let country = field_str(o, "country")?;
        let county = opt_field_str(o, "county")?;
        let formatted_address = opt_field_str(o, "formatted-address")?;
        let latitude = field_number(o, "latitude")?;
        let longitude = field_number(o, "longitude")?;
        let map_url = opt_field_str(o, "map-url")?;
        let municipality = opt_field_str(o, "municipality")?;
        let name = field_str(o, "name")?;
        let neighborhood = opt_field_str(o, "neighborhood")?;
        let postal_code = field_lenient_u64(o, "postal-code")?;
        let state = field_str(o, "state")?;
        let street1 = opt_field_str(o, "street1")?;
        let street2 = opt_field_str(o, "street2")?;
        let utc_offset = opt_field_i64(o, "utc-offset")?;
        Ok(LocationData { city, country, county, formatted_address, latitude, longitude, map_url, municipality, name, neighborhood, postal_code, state, street1, street2, utc_offset })
    }

    /// Appends the fields to an object's entries, in declaration order.
    fn push_fields(&self, e: &mut Vec<(String, Json)>)
        requires
            old(e)@.len() == 0,
        ensures
            location_data_written_as(final(e)@, *self),
    {
        e.push((String::from_str("city"), str_json(&self.city)));
        e.push((String::from_str("country"), str_json(&self.country)));
        e.push((String::from_str("county"), opt_str_json(&self.county)));
        e.push((String::from_str("formatted-address"), opt_str_json(&self.formatted_address)));
        e.push((String::from_str("latitude"), number_json(&self.latitude)));
        e.push((String::from_str("longitude"), number_json(&self.longitude)));
        e.push((String::from_str("map-url"), opt_str_json(&self.map_url)));
        e.push((String::from_str("municipality"), opt_str_json(&self.municipality)));
        e.push((String::from_str("name"), str_json(&self.name)));
        e.push((String::from_str("neighborhood"), opt_str_json(&self.neighborhood)));
        e.push((String::from_str("postal-code"), opt_str_u64_json(&self.postal_code)));
        e.push((String::from_str("state"), str_json(&self.state)));
        e.push((String::from_str("street1"), opt_str_json(&self.street1)));
        e.push((String::from_str("street2"), opt_str_json(&self.street2)));
        e.push((String::from_str("utc-offset"), opt_i64_json(&self.utc_offset)));
    }

    /// Reads an object of this shape; keys outside the schema are ignored.
    pub fn from_json(j: &Json) -> (r: Result<LocationData, DecodeError>)
        ensures
            !(j is Object) ==> r is Err,
            r matches Ok(d) ==> (j matches Json::Object(e) && location_data_read_from(e@, d)),
            location_data_wire_ok(*j) <==> r is Ok,
            r matches Err(e) ==> match *j {
                Json::Object(o) => e.path@.len() == 1 && location_data_error_at(o@, e.path@[0]@),
                _ => e.path@.len() == 0,
            },
    {
        match j {
            Json::Object(o) => {
                LocationData::from_fields(o)
            },
            _ => Err(not_an_object()),
        }
    }

    /// Writes an object of this shape.
    pub fn to_json(&self) -> (r: Json)
        ensures
            r matches Json::Object(e) && location_data_written_as(e@, *self),
    {
        let mut e: Vec<(String, Json)> = Vec::new();
        self.push_fields(&mut e);
        Json::Object(e)
    }
}

/// The attributes of a message posted to a group.
#[derive(Clone, Debug, PartialEq)]
pub struct NanoMessageData {
    pub content: String,
    pub created_at: Timestamp,
    pub group_id: u64,
    pub official: bool,
    pub send_email: Option<bool>,
    pub sender_avatar_url: Option<String>,
    pub sender_name: Option<String>,
    pub sender_slug: Option<String>,
    pub updated_at: Timestamp,
    pub user_id: u64,
}

/// Whether each plain field of `d` is what the entries hold under its key.
pub open spec fn nano_message_data_read_from(o: Seq<(String, Json)>, d: NanoMessageData) -> bool {
    &&& (lookup(o, "content"@) matches Some(j) && json_str(j) == Some(d.content@))
    &&& (lookup(o, "created-at"@) matches Some(j) && json_timestamp(j) == Some(d.created_at@))
    &&& (lookup(o, "group-id"@) matches Some(j) && json_u64(j) == Some(d.group_id))
    &&& (lookup(o, "official"@) matches Some(j) && json_bool(j) == Some(d.official))
    &&& match d.send_email {
        Some(v) => lookup(o, "send-email"@) matches Some(j) && json_bool(j) == Some(v),
        None => lookup(o, "send-email"@) is None || lookup(o, "send-email"@) == Some(Json::Null),
    }
    &&& match d.sender_avatar_url {
        Some(v) => lookup(o, "sender-avatar-url"@) matches Some(j) && json_str(j) == Some(v@),
        None => lookup(o, "sender-avatar-url"@) is None || lookup(o, "sender-avatar-url"@) == Some(Json::Null),
    }
    &&& match d.sender_name {
        Some(v) => lookup(o, "sender-name"@) matches Some(j) && json_str(j) == Some(v@),
        None => lookup(o, "sender-name"@) is None || lookup(o, "sender-name"@) == Some(Json::Null),
    }
    &&& match d.sender_slug {
        Some(v) => lookup(o, "sender-slug"@) matches Some(j) && json_str(j) == Some(v@),
        None => lookup(o, "sender-slug"@) is None || lookup(o, "sender-slug"@) == Some(Json::Null),
    }
    &&& (lookup(o, "updated-at"@) matches Some(j) && json_timestamp(j) == Some(d.updated_at@))
    &&& (lookup(o, "user-id"@) matches Some(j) && json_u64(j) == Some(d.user_id))
}

/// Whether the entries are the fields of `d`, in order, each under its key in its wire form.
pub open spec fn nano_message_data_written_as(e: Seq<(String, Json)>, d: NanoMessageData) -> bool {
    &&& e.len() == 10
    &&& e[0].0@ == "content"@ && writes_str(e[0].1, d.content)
    &&& e[1].0@ == "created-at"@ && writes_timestamp(e[1].1, d.created_at)
    &&& e[2].0@ == "group-id"@ && writes_u64(e[2].1, d.group_id)
    &&& e[3].0@ == "official"@ && writes_bool(e[3].1, d.official)
    &&& e[4].0@ == "send-email"@ && match d.send_email {
        Some(v) => writes_bool(e[4].1, v),
        None => e[4].1 == Json::Null,
    }
    &&& e[5].0@ == "sender-avatar-url"@ && match d.sender_avatar_url {
        Some(v) => writes_str(e[5].1, v),
        None => e[5].1 == Json::Null,
    }
    &&& e[6].0@ == "sender-name"@ && match d.sender_name {
        Some(v) => writes_str(e[6].1, v),
        None => e[6].1 == Json::Null,
    }
    &&& e[7].0@ == "sender-slug"@ && match d.sender_slug {
        Some(v) => writes_str(e[7].1, v),
        None => e[7].1 == Json::Null,
    }
    &&& e[8].0@ == "updated-at"@ && writes_timestamp(e[8].1, d.updated_at)
    &&& e[9].0@ == "user-id"@ && writes_u64(e[9].1, d.user_id)
}

/// Whether every field can be read from the entries.
pub open spec fn nano_message_data_fields_ok(o: Seq<(String, Json)>) -> bool {
    &&& (lookup(o, "content"@) matches Some(j) && json_str(j) is Some)
    &&& (lookup(o, "created-at"@) matches Some(j) && json_timestamp(j) is Some)
    &&& (lookup(o, "group-id"@) matches Some(j) && json_u64(j) is Some)
    &&& (lookup(o, "official"@) matches Some(j) && json_bool(j) is Some)
    &&& match lookup(o, "send-email"@) {
        Some(j) => j is Null || json_bool(j) is Some,
        None => true,
    }
    &&& match lookup(o, "sender-avatar-url"@) {
        Some(j) => j is Null || json_str(j) is Some,
        None => true,
    }
    &&& match lookup(o, "sender-name"@) {
        Some(j) => j is Null || json_str(j) is Some,
        None => true,
    }
    &&& match lookup(o, "sender-slug"@) {
        Some(j) => j is Null || json_str(j) is Some,
        None => true,
    }
    &&& (lookup(o, "updated-at"@) matches Some(j) && json_timestamp(j) is Some)
    &&& (lookup(o, "user-id"@) matches Some(j) && json_u64(j) is Some)
}

/// Whether `p` is the key a failed read of the fields names: the first
/// field, in schema order, that cannot be read.
pub open spec fn nano_message_data_failed_at(o: Seq<(String, Json)>, p: Seq<char>) -> bool {
    ||| (p == "content"@ && !(lookup(o, "content"@) matches Some(j) && json_str(j) is Some))
    ||| ((lookup(o, "content"@) matches Some(j) && json_str(j) is Some) && p == "created-at"@ && !(lookup(o, "created-at"@) matches Some(j) && json_timestamp(j) is Some))
    ||| ((lookup(o, "content"@) matches Some(j) && json_str(j) is Some) && (lookup(o, "created-at"@) matches Some(j) && json_timestamp(j) is Some) && p == "group-id"@ && !(lookup(o, "group-id"@) matches Some(j) && json_u64(j) is Some))
    ||| ((lookup(o, "content"@) matches Some(j) && json_str(j) is Some) && (lookup(o, "created-at"@) matches Some(j) && json_timestamp(j) is Some) && (lookup(o, "group-id"@) matches Some(j) && json_u64(j) is Some) && p == "official"@ && !(lookup(o, "official"@) matches Some(j) && json_bool(j) is Some))
    ||| ((lookup(o, "content"@) matches Some(j) && json_str(j) is Some) && (lookup(o, "created-at"@) matches Some(j) && json_timestamp(j) is Some) && (lookup(o, "group-id"@) matches Some(j) && json_u64(j) is Some) && (lookup(o, "official"@) matches Some(j) && json_bool(j) is Some) && p == "send-email"@ && !(match lookup(o, "send-email"@) { Some(j) => j is Null || json_bool(j) is Some, None => true }))
    ||| ((lookup(o, "content"@) matches Some(j) && json_str(j) is Some) && (lookup(o, "created-at"@) matches Some(j) && json_timestamp(j) is Some) && (lookup(o, "group-id"@) matches Some(j) && json_u64(j) is Some) && (lookup(o, "official"@) matches Some(j) && json_bool(j) is Some) && (match lookup(o, "send-email"@) { Some(j) => j is Null || json_bool(j) is Some, None => true }) && p == "sender-avatar-url"@ && !(match lookup(o, "sender-avatar-url"@) { Some(j) => j is Null || json_str(j) is Some, None => true }))
    ||| ((lookup(o, "content"@) matches Some(j) && json_str(j) is Some) && (lookup(o, "created-at"@) matches Some(j) && json_timestamp(j) is Some) && (lookup(o, "group-id"@) matches Some(j) && json_u64(j) is Some) && (lookup(o, "official"@) matches Some(j) && json_bool(j) is Some) && (match lookup(o, "send-email"@) { Some(j) => j is Null || json_bool(j) is Some, None => true }) && (match lookup(o, "sender-avatar-url"@) { Some(j) => j is Null || json_str(j) is Some, None => true }) && p == "sender-name"@ && !(match lookup(o, "sender-name"@) { Some(j) => j is Null || json_str(j) is Some, None => true }))
    ||| ((lookup(o, "content"@) matches Some(j) && json_str(j) is Some) && (lookup(o, "created-at"@) matches Some(j) && json_timestamp(j) is Some) && (lookup(o, "group-id"@) matches Some(j) && json_u64(j) is Some) && (lookup(o, "official"@) matches Some(j) && json_bool(j) is Some) && (match lookup(o, "send-email"@) { Some(j) => j is Null || json_bool(j) is Some, None => true }) && (match lookup(o, "sender-avatar-url"@) { Some(j) => j is Null || json_str(j) is Some, None => true }) && (match lookup(o, "sender-name"@) { Some(j) => j is Null || json_str(j) is Some, None => true }) && p == "sender-slug"@ && !(match lookup(o, "sender-slug"@) { Some(j) => j is Null || json_str(j) is Some, None => true }))
    ||| ((lookup(o, "content"@) matches Some(j) && json_str(j) is Some) && (lookup(o, "created-at"@) matches Some(j) && json_timestamp(j) is Some) && (lookup(o, "group-id"@) matches Some(j) && json_u64(j) is Some) && (lookup(o, "official"@) matches Some(j) && json_bool(j) is Some) && (match lookup(o, "send-email"@) { Some(j) => j is Null || json_bool(j) is Some, None => true }) && (match lookup(o, "sender-avatar-url"@) { Some(j) => j is Null || json_str(j) is Some, None => true }) && (match lookup(o, "sender-name"@) { Some(j) => j is Null || json_str(j) is Some, None => true }) && (match lookup(o, "sender-slug"@) { Some(j) => j is Null || json_str(j) is Some, None => true }) && p == "updated-at"@ && !(lookup(o, "updated-at"@) matches Some(j) && json_timestamp(j) is Some))
    ||| ((lookup(o, "content"@) matches Some(j) && json_str(j) is Some) && (lookup(o, "created-at"@) matches Some(j) && json_timestamp(j) is Some) && (lookup(o, "group-id"@) matches Some(j) && json_u64(j) is Some) && (lookup(o, "official"@) matches Some(j) && json_bool(j) is Some) && (match lookup(o, "send-email"@) { Some(j) => j is Null || json_bool(j) is Some, None => true }) && (match lookup(o, "sender-avatar-url"@) { Some(j) => j is Null || json_str(j) is Some, None => true }) && (match lookup(o, "sender-name"@) { Some(j) => j is Null || json_str(j) is Some, None => true }) && (match lookup(o, "sender-slug"@) { Some(j) => j is Null || json_str(j) is Some, None => true }) && (lookup(o, "updated-at"@) matches Some(j) && json_timestamp(j) is Some) && p == "user-id"@ && !(lookup(o, "user-id"@) matches Some(j) && json_u64(j) is Some))
}

/// Whether `p` is the key a failed read of a NanoMessageData object names: the
/// first unknown key, else the first unreadable field.
pub open spec fn nano_message_data_error_at(o: Seq<(String, Json)>, p: Seq<char>) -> bool {
    if keys_within(o, seq!["content", "created-at", "group-id", "official", "send-email", "sender-avatar-url", "sender-name", "sender-slug", "updated-at", "user-id"]) {
        nano_message_data_failed_at(o, p)
    } else {
        !is_one_of(p, seq!["content", "created-at", "group-id", "official", "send-email", "sender-avatar-url", "sender-name", "sender-slug", "updated-at", "user-id"])
    }
}

/// Whether a wire object is a readable NanoMessageData: no unknown key, and every field readable.
pub open spec fn nano_message_data_wire_ok(j: Json) -> bool {
    match j {
        Json::Object(e) => keys_within(e@, seq!["content", "created-at", "group-id", "official", "send-email", "sender-avatar-url", "sender-name", "sender-slug", "updated-at", "user-id"]) && nano_message_data_fields_ok(e@),
        _ => false,
    }
}

impl NanoMessageData {
    /// Reads the fields from an object's entries; keys of other fields are ignored.
    fn from_fields(o: &Vec<(String, Json)>) -> (r: Result<NanoMessageData, DecodeError>)
        ensures
            r matches Ok(d) ==> nano_message_data_read_from(o@, d),
            nano_message_data_fields_ok(o@) <==> r is Ok,
            r matches Err(e) ==> e.path@.len() == 1 && nano_message_data_failed_at(o@, e.path@[0]@),
    {
        let content = field_str(o, "content")?;
        let created_at = field_timestamp(o, "created-at")?;
        let group_id = field_u64(o, "group-id")?;
        let official = field_bool(o, "official")?;
        let send_email = opt_field_bool(o, "send-email")?;
        let sender_avatar_url = opt_field_str(o, "sender-avatar-url")?;
        let sender_name = opt_field_str(o, "sender-name")?;
        let sender_slug = opt_field_str(o, "sender-slug")?;
        let updated_at = field_timestamp(o, "updated-at")?;
        let user_id = field_u64(o, "user-id")?;
        Ok(NanoMessageData { content, created_at, group_id, official, send_email, sender_avatar_url, sender_name, sender_slug, updated_at, user_id })
    }

    /// Appends the fields to an object's entries, in declaration order.
    fn push_fields(&self, e: &mut Vec<(String, Json)>)
        requires
            old(e)@.len() == 0,
        ensures
            nano_message_data_written_as(final(e)@, *self),
    {
        e.push((String::from_str("content"), str_json(&self.content)));
        e.push((String::from_str("created-at"), timestamp_json(&self.created_at)));
        e.push((String::from_str("group-id"), u64_json(&self.group_id)));
        e.push((String::from_str("official"), bool_json(&self.official)));
        e.push((String::from_str("send-email"), opt_bool_json(&self.send_email)));
        e.push((String::from_str("sender-avatar-url"), opt_str_json(&self.sender_avatar_url)));
        e.push((String::from_str("sender-name"), opt_str_json(&self.sender_name)));
        e.push((String::from_str("sender-slug"), opt_str_json(&self.sender_slug)));
        e.push((String::from_str("updated-at"), timestamp_json(&self.updated_at)));
        e.push((String::from_str("user-id"), u64_json(&self.user_id)));
    }

    /// Reads an object of this shape; a key outside the schema is refused.
    pub fn from_json(j: &Json) -> (r: Result<NanoMessageData, DecodeError>)
        ensures
            !(j is Object) ==> r is Err,
            r matches Ok(d) ==> (j matches Json::Object(e) && nano_message_data_read_from(e@, d)),
            nano_message_data_wire_ok(*j) <==> r is Ok,
            r matches Err(e) ==> match *j {
                Json::Object(o) => e.path@.len() == 1 && nano_message_data_error_at(o@, e.path@[0]@),
                _ => e.path@.len() == 0,
            },
            r is Ok ==> (j matches Json::Object(e) && keys_within(e@, seq!["content", "created-at", "group-id", "official", "send-email", "sender-avatar-url", "sender-name", "sender-slug", "updated-at", "user-id"])),
    {
        match j {
            Json::Object(o) => {
                check_keys(o, &vec!["content", "created-at", "group-id", "official", "send-email", "sender-avatar-url", "sender-name", "sender-slug", "updated-at", "user-id"])?;
                NanoMessageData::from_fields(o)
            },
            _ => Err(not_an_object()),
        }
    }

    /// Writes an object of this shape.
    pub fn to_json(&self) -> (r: Json)
        ensures
            r matches Json::Object(e) && nano_message_data_written_as(e@, *self),
    {
        let mut e: Vec<(String, Json)> = Vec::new();
        self.push_fields(&mut e);
        Json::Object(e)
    }
}

/// The attributes of a notification.
#[derive(Clone, Debug, PartialEq)]
pub struct NotificationData {
    pub action_id: Option<u64>,
    pub action_type: ActionType,
    pub content: String,
    pub created_at: Timestamp,
    pub data_count: Option<u64>,
    pub display_at: Timestamp,
    pub display_status: DisplayStatus,
    pub headline: String,
    pub image_url: Option<String>,
    pub last_viewed_at: Option<Timestamp>,
    pub redirect_url: Option<String>,
    pub updated_at: Timestamp,
    pub user_id: u64,
}

/// Whether each plain field of `d` is what the entries hold under its key.
pub open spec fn notification_data_read_from(o: Seq<(String, Json)>, d: NotificationData) -> bool {
    &&& match d.action_id {
        Some(v) => lookup(o, "action-id"@) matches Some(j) && json_u64(j) == Some(v),
        None => lookup(o, "action-id"@) is None || lookup(o, "action-id"@) == Some(Json::Null),
    }
    &&& (lookup(o, "action-type"@) matches Some(j) && json_action_type(j) == Some(d.action_type))
    &&& (lookup(o, "content"@) matches Some(j) && json_str(j) == Some(d.content@))
    &&& (lookup(o, "created-at"@) matches Some(j) && json_timestamp(j) == Some(d.created_at@))
    &&& match d.data_count {
        Some(v) => lookup(o, "data-count"@) matches Some(j) && json_u64(j) == Some(v),
        None => lookup(o, "data-count"@) is None || lookup(o, "data-count"@) == Some(Json::Null),
    }
    &&& (lookup(o, "display-at"@) matches Some(j) && json_timestamp(j) == Some(d.display_at@))
    &&& (lookup(o, "display-status"@) matches Some(j) && json_display_status(j) == Some(d.display_status))
    &&& (lookup(o, "headline"@) matches Some(j) && json_str(j) == Some(d.headline@))
    &&& match d.image_url {
        Some(v) => lookup(o, "image-url"@) matches Some(j) && json_str(j) == Some(v@),
        None => lookup(o, "image-url"@) is None || lookup(o, "image-url"@) == Some(Json::Null),
    }
    &&& match d.last_viewed_at {
        Some(v) => lookup(o, "last-viewed-at"@) matches Some(j) && json_timestamp(j) == Some(v@),
        None => lookup(o, "last-viewed-at"@) is None || lookup(o, "last-viewed-at"@) == Some(Json::Null),
    }
    &&& match d.redirect_url {
        Some(v) => lookup(o, "redirect-url"@) matches Some(j) && json_str(j) == Some(v@),
        None => lookup(o, "redirect-url"@) is None || lookup(o, "redirect-url"@) == Some(Json::Null),
    }
    &&& (lookup(o, "updated-at"@) matches Some(j) && json_timestamp(j) == Some(d.updated_at@))
    &&& (lookup(o, "user-id"@) matches Some(j) && json_u64(j) == Some(d.user_id))
}

/// Whether the entries are the fields of `d`, in order, each under its key in its wire form.
pub open spec fn notification_data_written_as(e: Seq<(String, Json)>, d: NotificationData) -> bool {
    &&& e.len() == 13
    &&& e[0].0@ == "action-id"@ && match d.action_id {
        Some(v) => writes_u64(e[0].1, v),
        None => e[0].1 == Json::Null,
    }
    &&& e[1].0@ == "action-type"@ && writes_action_type(e[1].1, d.action_type)
    &&& e[2].0@ == "content"@ && writes_str(e[2].1, d.content)
    &&& e[3].0@ == "created-at"@ && writes_timestamp(e[3].1, d.created_at)
    &&& e[4].0@ == "data-count"@ && match d.data_count {
        Some(v) => writes_u64(e[4].1, v),
        None => e[4].1 == Json::Null,
    }
    &&& e[5].0@ == "display-at"@ && writes_timestamp(e[5].1, d.display_at)
    &&& e[6].0@ == "display-status"@ && writes_display_status(e[6].1, d.display_status)
    &&& e[7].0@ == "headline"@ && writes_str(e[7].1, d.headline)
    &&& e[8].0@ == "image-url"@ && match d.image_url {
        Some(v) => writes_str(e[8].1, v),
        None => e[8].1 == Json::Null,
    }
    &&& e[9].0@ == "last-viewed-at"@ && match d.last_viewed_at {
        Some(v) => writes_timestamp(e[9].1, v),
        None => e[9].1 == Json::Null,
    }
    &&& e[10].0@ == "redirect-url"@ && match d.redirect_url {
        Some(v) => writes_str(e[10].1, v),
        None => e[10].1 == Json::Null,
    }
    &&& e[11].0@ == "updated-at"@ && writes_timestamp(e[11].1, d.updated_at)
    &&& e[12].0@ == "user-id"@ && writes_u64(e[12].1, d.user_id)
}

/// Whether every field can be read from the entries.
pub open spec fn notification_data_fields_ok(o: Seq<(String, Json)>) -> bool {
    &&& match lookup(o, "action-id"@) {
        Some(j) => j is Null || json_u64(j) is Some,
        None => true,
    }
    &&& (lookup(o, "action-type"@) matches Some(j) && json_action_type(j) is Some)
    &&& (lookup(o, "content"@) matches Some(j) && json_str(j) is Some)
    &&& (lookup(o, "created-at"@) matches Some(j) && json_timestamp(j) is Some)
    &&& match lookup(o, "data-count"@) {
        Some(j) => j is Null || json_u64(j) is Some,
        None => true,
    }
    &&& (lookup(o, "display-at"@) matches Some(j) && json_timestamp(j) is Some)
    &&& (lookup(o, "display-status"@) matches Some(j) && json_display_status(j) is Some)
    &&& (lookup(o, "headline"@) matches Some(j) && json_str(j) is Some)
    &&& match lookup(o, "image-url"@) {
        Some(j) => j is Null || json_str(j) is Some,
        None => true,
    }
    &&& match lookup(o, "last-viewed-at"@) {
        Some(j) => j is Null || json_timestamp(j) is Some,
        None => true,
    }
    &&& match lookup(o, "redirect-url"@) {
        Some(j) => j is Null || json_str(j) is Some,
        None => true,
    }
    &&& (lookup(o, "updated-at"@) matches Some(j) && json_timestamp(j) is Some)
    &&& (lookup(o, "user-id"@) matches Some(j) && json_u64(j) is Some)
}

/// Whether `p` is the key a failed read of the fields names: the first
/// field, in schema order, that cannot be read.
pub open spec fn notification_data_failed_at(o: Seq<(String, Json)>, p: Seq<char>) -> bool {
    ||| (p == "action-id"@ && !(match lookup(o, "action-id"@) { Some(j) => j is Null || json_u64(j) is Some, None => true }))
    ||| ((match lookup(o, "action-id"@) { Some(j) => j is Null || json_u64(j) is Some, None => true }) && p == "action-type"@ && !(lookup(o, "action-type"@) matches Some(j) && json_action_type(j) is Some))
    ||| ((match lookup(o, "action-id"@) { Some(j) => j is Null || json_u64(j) is Some, None => true }) && (lookup(o, "action-type"@) matches Some(j) && json_action_type(j) is Some) && p == "content"@ && !(lookup(o, "content"@) matches Some(j) && json_str(j) is Some))
    ||| ((match lookup(o, "action-id"@) { Some(j) => j is Null || json_u64(j) is Some, None => true }) && (lookup(o, "action-type"@) matches Some(j) && json_action_type(j) is Some) && (lookup(o, "content"@) matches Some(j) && json_str(j) is Some) && p == "created-at"@ && !(lookup(o, "created-at"@) matches Some(j) && json_timestamp(j) is Some))
    ||| ((match lookup(o, "action-id"@) { Some(j) => j is Null || json_u64(j) is Some, None => true }) && (lookup(o, "action-type"@) matches Some(j) && json_action_type(j) is Some) && (lookup(o, "content"@) matches Some(j) && json_str(j) is Some) && (lookup(o, "created-at"@) matches Some(j) && json_timestamp(j) is Some) && p == "data-count"@ && !(match lookup(o, "data-count"@) { Some(j) => j is Null || json_u64(j) is Some, None => true }))
    ||| ((match lookup(o, "action-id"@) { Some(j) => j is Null || json_u64(j) is Some, None => true }) && (lookup(o, "action-type"@) matches Some(j) && json_action_type(j) is Some) && (lookup(o, "content"@) matches Some(j) && json_str(j) is Some) && (lookup(o, "created-at"@) matches Some(j) && json_timestamp(j) is Some) && (match lookup(o, "data-count"@) { Some(j) => j is Null || json_u64(j) is Some, None => true }) && p == "display-at"@ && !(lookup(o, "display-at"@) matches Some(j) && json_timestamp(j) is Some))
    ||| ((match lookup(o, "action-id"@) { Some(j) => j is Null || json_u64(j) is Some, None => true }) && (lookup(o, "action-type"@) matches Some(j) && json_action_type(j) is Some) && (lookup(o, "content"@) matches Some(j) && json_str(j) is Some) && (lookup(o, "created-at"@) matches Some(j) && json_timestamp(j) is Some) && (match lookup(o, "data-count"@) { Some(j) => j is Null || json_u64(j) is Some, None => true }) && (lookup(o, "display-at"@) matches Some(j) && json_timestamp(j) is Some) && p == "display-status"@ && !(lookup(o, "display-status"@) matches Some(j) && json_display_status(j) is Some))
    ||| ((match lookup(o, "action-id"@) { Some(j) => j is Null || json_u64(j) is Some, None => true }) && (lookup(o, "action-type"@) matches Some(j) && json_action_type(j) is Some) && (lookup(o, "content"@) matches Some(j) && json_str(j) is Some) && (lookup(o, "created-at"@) matches Some(j) && json_timestamp(j) is Some) && (match lookup(o, "data-count"@) { Some(j) => j is Null || json_u64(j) is Some, None => true }) && (lookup(o, "display-at"@) matches Some(j) && json_timestamp(j) is Some) && (lookup(o, "display-status"@) matches Some(j) && json_display_status(j) is Some) && p == "headline"@ && !(lookup(o, "headline"@) matches Some(j) && json_str(j) is Some))
    ||| ((match lookup(o, "action-id"@) { Some(j) => j is Null || json_u64(j) is Some, None => true }) && (lookup(o, "action-type"@) matches Some(j) && json_action_type(j) is Some) && (lookup(o, "content"@) matches Some(j) && json_str(j) is Some) && (lookup(o, "created-at"@) matches Some(j) && json_timestamp(j) is Some) && (match lookup(o, "data-count"@) { Some(j) => j is Null || json_u64(j) is Some, None => true }) && (lookup(o, "display-at"@) matches Some(j) && json_timestamp(j) is Some) && (lookup(o, "display-status"@) matches Some(j) && json_display_status(j) is Some) && (lookup(o, "headline"@) matches Some(j) && json_str(j) is Some) && p == "image-url"@ && !(match lookup(o, "image-url"@) { Some(j) => j is Null || json_str(j) is Some, None => true }))
    ||| ((match lookup(o, "action-id"@) { Some(j) => j is Null || json_u64(j) is Some, None => true }) && (lookup(o, "action-type"@) matches Some(j) && json_action_type(j) is Some) && (lookup(o, "content"@) matches Some(j) && json_str(j) is Some) && (lookup(o, "created-at"@) matches Some(j) && json_timestamp(j) is Some) && (match lookup(o, "data-count"@) { Some(j) => j is Null || json_u64(j) is Some, None => true }) && (lookup(o, "display-at"@) matches Some(j) && json_timestamp(j) is Some) && (lookup(o, "display-status"@) matches Some(j) && json_display_status(j) is Some) && (lookup(o, "headline"@) matches Some(j) && json_str(j) is Some) && (match lookup(o, "image-url"@) { Some(j) => j is Null || json_str(j) is Some, None => true }) && p == "last-viewed-at"@ && !(match lookup(o, "last-viewed-at"@) { Some(j) => j is Null || json_timestamp(j) is Some, None => true }))
    ||| ((match lookup(o, "action-id"@) { Some(j) => j is Null || json_u64(j) is Some, None => true }) && (lookup(o, "action-type"@) matches Some(j) && json_action_type(j) is Some) && (lookup(o, "content"@) matches Some(j) && json_str(j) is Some) && (lookup(o, "created-at"@) matches Some(j) && json_timestamp(j) is Some) && (match lookup(o, "data-count"@) { Some(j) => j is Null || json_u64(j) is Some, None => true }) && (lookup(o, "display-at"@) matches Some(j) && json_timestamp(j) is Some) && (lookup(o, "display-status"@) matches Some(j) && json_display_status(j) is Some) && (lookup(o, "headline"@) matches Some(j) && json_str(j) is Some) && (match lookup(o, "image-url"@) { Some(j) => j is Null || json_str(j) is Some, None => true }) && (match lookup(o, "last-viewed-at"@) { Some(j) => j is Null || json_timestamp(j) is Some, None => true }) && p == "redirect-url"@ && !(match lookup(o, "redirect-url"@) { Some(j) => j is Null || json_str(j) is Some, None => true }))
    ||| ((match lookup(o, "action-id"@) { Some(j) => j is Null || json_u64(j) is Some, None => true }) && (lookup(o, "action-type"@) matches Some(j) && json_action_type(j) is Some) && (lookup(o, "content"@) matches Some(j) && json_str(j) is Some) && (lookup(o, "created-at"@) matches Some(j) && json_timestamp(j) is Some) && (match lookup(o, "data-count"@) { Some(j) => j is Null || json_u64(j) is Some, None => true }) && (lookup(o, "display-at"@) matches Some(j) && json_timestamp(j) is Some) && (lookup(o, "display-status"@) matches Some(j) && json_display_status(j) is Some) && (lookup(o, "headline"@) matches Some(j) && json_str(j) is Some) && (match lookup(o, "image-url"@) { Some(j) => j is Null || json_str(j) is Some, None => true }) && (match lookup(o, "last-viewed-at"@) { Some(j) => j is Null || json_timestamp(j) is Some, None => true }) && (match lookup(o, "redirect-url"@) { Some(j) => j is Null || json_str(j) is Some, None => true }) && p == "updated-at"@ && !(lookup(o, "updated-at"@) matches Some(j) && json_timestamp(j) is Some))
    ||| ((match lookup(o, "action-id"@) { Some(j) => j is Null || json_u64(j) is Some, None => true }) && (lookup(o, "action-type"@) matches Some(j) && json_action_type(j) is Some) && (lookup(o, "content"@) matches Some(j) && json_str(j) is Some) && (lookup(o, "created-at"@) matches Some(j) && json_timestamp(j) is Some) && (match lookup(o, "data-count"@) { Some(j) => j is Null || json_u64(j) is Some, None => true }) && (lookup(o, "display-at"@) matches Some(j) && json_timestamp(j) is Some) && (lookup(o, "display-status"@) matches Some(j) && json_display_status(j) is Some) && (lookup(o, "headline"@) matches Some(j) && json_str(j) is Some) && (match lookup(o, "image-url"@) { Some(j) => j is Null || json_str(j) is Some, None => true }) && (match lookup(o, "last-viewed-at"@) { Some(j) => j is Null || json_timestamp(j) is Some, None => true }) && (match lookup(o, "redirect-url"@) { Some(j) => j is Null || json_str(j) is Some, None => true }) && (lookup(o, "updated-at"@) matches Some(j) && json_timestamp(j) is Some) && p == "user-id"@ && !(lookup(o, "user-id"@) matches Some(j) && json_u64(j) is Some))
}

/// Whether `p` is the key a failed read of a NotificationData object names: the
/// first unknown key, else the first unreadable field.
pub open spec fn notification_data_error_at(o: Seq<(String, Json)>, p: Seq<char>) -> bool {
    if keys_within(o, seq!["action-id", "action-type", "content", "created-at", "data-count", "display-at", "display-status", "headline", "image-url", "last-viewed-at", "redirect-url", "updated-at", "user-id"]) {
        notification_data_failed_at(o, p)
    } else {
        !is_one_of(p, seq!["action-id", "action-type", "content", "created-at", "data-count", "display-at", "display-status", "headline", "image-url", "last-viewed-at", "redirect-url", "updated-at", "user-id"])
    }
}

/// Whether a wire object is a readable NotificationData: no unknown key, and every field readable.
pub open spec fn notification_data_wire_ok(j: Json) -> bool {
    match j {
        Json::Object(e) => keys_within(e@, seq!["action-id", "action-type", "content", "created-at", "data-count", "display-at", "display-status", "headline", "image-url", "last-viewed-at", "redirect-url", "updated-at", "user-id"]) && notification_data_fields_ok(e@),
        _ => false,
    }
}

impl NotificationData {
    /// Reads the fields from an object's entries; keys of other fields are ignored.
    fn from_fields(o: &Vec<(String, Json)>) -> (r: Result<NotificationData, DecodeError>)
        ensures
            r matches Ok(d) ==> notification_data_read_from(o@, d),
            notification_data_fields_ok(o@) <==> r is Ok,
            r matches Err(e) ==> e.path@.len() == 1 && notification_data_failed_at(o@, e.path@[0]@),
    {
        let action_id = opt_field_u64(o, "action-id")?;
        let action_type = field_action_type(o, "action-type")?;
        let content = field_str(o, "content")?;
        let created_at = field_timestamp(o, "created-at")?;
        let data_count = opt_field_u64(o, "data-count")?;
        let display_at = field_timestamp(o, "display-at")?;
        let display_status = field_display_status(o, "display-status")?;
        let headline = field_str(o, "headline")?;
        let image_url = opt_field_str(o, "image-url")?;
        let last_viewed_at = opt_field_timestamp(o, "last-viewed-at")?;
        let redirect_url = opt_field_str(o, "redirect-url")?;
        let updated_at = field_timestamp(o, "updated-at")?;
        let user_id = field_u64(o, "user-id")?;
        Ok(NotificationData { action_id, action_type, content, created_at, data_count, display_at, display_status, headline, image_url, last_viewed_at, redirect_url, updated_at, user_id })
    }

    /// Appends the fields to an object's entries, in declaration order.
    fn push_fields(&self, e: &mut Vec<(String, Json)>)
        requires
            old(e)@.len() == 0,
        ensures
            notification_data_written_as(final(e)@, *self),
    {
        e.push((String::from_str("action-id"), opt_u64_json(&self.action_id)));
        e.push((String::from_str("action-type"), action_type_json(&self.action_type)));
        e.push((String::from_str("content"), str_json(&self.content)));
        e.push((String::from_str("created-at"), timestamp_json(&self.created_at)));
        e.push((String::from_str("data-count"), opt_u64_json(&self.data_count)));
        e.push((String::from_str("display-at"), timestamp_json(&self.display_at)));
        e.push((String::from_str("display-status"), display_status_json(&self.display_status)));
        e.push((String::from_str("headline"), str_json(&self.headline)));
        e.push((String::from_str("image-url"), opt_str_json(&self.image_url)));
        e.push((String::from_str("last-viewed-at"), opt_timestamp_json(&self.last_viewed_at)));
        e.push((String::from_str("redirect-url"), opt_str_json(&self.redirect_url)));
        e.push((String::from_str("updated-at"), timestamp_json(&self.updated_at)));
        e.push((String::from_str("user-id"), u64_json(&self.user_id)));
    }

    /// Reads an object of this shape; a key outside the schema is refused.
    pub fn from_json(j: &Json) -> (r: Result<NotificationData, DecodeError>)
        ensures
            !(j is Object) ==> r is Err,
            r matches Ok(d) ==> (j matches Json::Object(e) && notification_data_read_from(e@, d)),
            notification_data_wire_ok(*j) <==> r is Ok,
            r matches Err(e) ==> match *j {
                Json::Object(o) => e.path@.len() == 1 && notification_data_error_at(o@, e.path@[0]@),
                _ => e.path@.len() == 0,
            },
            r is Ok ==> (j matches Json::Object(e) && keys_within(e@, seq!["action-id", "action-type", "content", "created-at", "data-count", "display-at", "display-status", "headline", "image-url", "last-viewed-at", "redirect-url", "updated-at", "user-id"])),
    {
        match j {
            Json::Object(o) => {
                check_keys(o, &vec!["action-id", "action-type", "content", "created-at", "data-count", "display-at", "display-status", "headline", "image-url", "last-viewed-at", "redirect-url", "updated-at", "user-id"])?;
                NotificationData::from_fields(o)
            },
            _ => Err(not_an_object()),
        }
    }

    /// Writes an object of this shape.
    pub fn to_json(&self) -> (r: Json)
        ensures
            r matches Json::Object(e) && notification_data_written_as(e@, *self),
    {
        let mut e: Vec<(String, Json)> = Vec::new();
        self.push_fields(&mut e);
        Json::Object(e)
    }
}

/// The attributes of a site page.
#[derive(Clone, Debug, PartialEq)]
pub struct PageData {
    pub body: String,
    pub url: String,
    pub headline: String,
    pub content_type: ContentType,
    pub show_after: Option<Timestamp>,
    pub promotional_card_image: Option<String>,
}

/// Whether each plain field of `d` is what the entries hold under its key.
pub open spec fn page_data_read_from(o: Seq<(String, Json)>, d: PageData) -> bool {
    &&& (lookup(o, "body"@) matches Some(j) && json_str(j) == Some(d.body@))
    &&& (lookup(o, "url"@) matches Some(j) && json_str(j) == Some(d.url@))
    &&& (lookup(o, "headline"@) matches Some(j) && json_str(j) == Some(d.headline@))
    &&& (lookup(o, "content-type"@) matches Some(j) && json_content_type(j) == Some(d.content_type))
    &&& match d.show_after {
        Some(v) => lookup(o, "show-after"@) matches Some(j) && json_timestamp(j) == Some(v@),
        None => lookup(o, "show-after"@) is None || lookup(o, "show-after"@) == Some(Json::Null),
    }
    &&& match d.promotional_card_image {
        Some(v) => lookup(o, "promotional-card-image"@) matches Some(j) && json_str(j) == Some(v@),
        None => lookup(o, "promotional-card-image"@) is None || lookup(o, "promotional-card-image"@) == Some(Json::Null),
    }
}

/// Whether the entries are the fields of `d`, in order, each under its key in its wire form.
pub open spec fn page_data_written_as(e: Seq<(String, Json)>, d: PageData) -> bool {
    &&& e.len() == 6
    &&& e[0].0@ == "body"@ && writes_str(e[0].1, d.body)
    &&& e[1].0@ == "url"@ && writes_str(e[1].1, d.url)
    &&& e[2].0@ == "headline"@ && writes_str(e[2].1, d.headline)
    &&& e[3].0@ == "content-type"@ && writes_content_type(e[3].1, d.content_type)
    &&& e[4].0@ == "show-after"@ && match d.show_after {
        Some(v) => writes_timestamp(e[4].1, v),
        None => e[4].1 == Json::Null,
    }
    &&& e[5].0@ == "promotional-card-image"@ && match d.promotional_card_image {
        Some(v) => writes_str(e[5].1, v),
        None => e[5].1 == Json::Null,
    }
}

/// Whether every field can be read from the entries.
pub open spec fn page_data_fields_ok(o: Seq<(String, Json)>) -> bool {
    &&& (lookup(o, "body"@) matches Some(j) && json_str(j) is Some)
    &&& (lookup(o, "url"@) matches Some(j) && json_str(j) is Some)
    &&& (lookup(o, "headline"@) matches Some(j) && json_str(j) is Some)
    &&& (lookup(o, "content-type"@) matches Some(j) && json_content_type(j) is Some)
    &&& match lookup(o, "show-after"@) {
        Some(j) => j is Null || json_timestamp(j) is Some,
        None => true,
    }
    &&& match lookup(o, "promotional-card-image"@) {
        Some(j) => j is Null || json_str(j) is Some,
        None => true,
    }
}

/// Whether `p` is the key a failed read of the fields names: the first
/// field, in schema order, that cannot be read.
pub open spec fn page_data_failed_at(o: Seq<(String, Json)>, p: Seq<char>) -> bool {
    ||| (p == "body"@ && !(lookup(o, "body"@) matches Some(j) && json_str(j) is Some))
    ||| ((lookup(o, "body"@) matches Some(j) && json_str(j) is Some) && p == "url"@ && !(lookup(o, "url"@) matches Some(j) && json_str(j) is Some))
    ||| ((lookup(o, "body"@) matches Some(j) && json_str(j) is Some) && (lookup(o, "url"@) matches Some(j) && json_str(j) is Some) && p == "headline"@ && !(lookup(o, "headline"@) matches Some(j) && json_str(j) is Some))
    ||| ((lookup(o, "body"@) matches Some(j) && json_str(j) is Some) && (lookup(o, "url"@) matches Some(j) && json_str(j) is Some) && (lookup(o, "headline"@) matches Some(j) && json_str(j) is Some) && p == "content-type"@ && !(lookup(o, "content-type"@) matches Some(j) && json_content_type(j) is Some))
    ||| ((lookup(o, "body"@) matches Some(j) && json_str(j) is Some) && (lookup(o, "url"@) matches Some(j) && json_str(j) is Some) && (lookup(o, "headline"@) matches Some(j) && json_str(j) is Some) && (lookup(o, "content-type"@) matches Some(j) && json_content_type(j) is Some) && p == "show-after"@ && !(match lookup(o, "show-after"@) { Some(j) => j is Null || json_timestamp(j) is Some, None => true }))
    ||| ((lookup(o, "body"@) matches Some(j) && json_str(j) is Some) && (lookup(o, "url"@) matches Some(j) && json_str(j) is Some) && (lookup(o, "headline"@) matches Some(j) && json_str(j) is Some) && (lookup(o, "content-type"@) matches Some(j) && json_content_type(j) is Some) && (match lookup(o, "show-after"@) { Some(j) => j is Null || json_timestamp(j) is Some, None => true }) && p == "promotional-card-image"@ && !(match lookup(o, "promotional-card-image"@) { Some(j) => j is Null || json_str(j) is Some, None => true }))
}

/// Whether `p` is the key a failed read of a PageData object names: the
/// first unknown key, else the first unreadable field.
pub open spec fn page_data_error_at(o: Seq<(String, Json)>, p: Seq<char>) -> bool {
    if keys_within(o, seq!["body", "url", "headline", "content-type", "show-after", "promotional-card-image"]) {
        page_data_failed_at(o, p)
    } else {
        !is_one_of(p, seq!["body", "url", "headline", "content-type", "show-after", "promotional-card-image"])
    }
}

/// Whether a wire object is a readable PageData: no unknown key, and every field readable.
pub open spec fn page_data_wire_ok(j: Json) -> bool {
    match j {
        Json::Object(e) => keys_within(e@, seq!["body", "url", "headline", "content-type", "show-after", "promotional-card-image"]) && page_data_fields_ok(e@),
        _ => false,
    }
}

impl PageData {
    /// Reads the fields from an object's entries; keys of other fields are ignored.
    fn from_fields(o: &Vec<(String, Json)>) -> (r: Result<PageData, DecodeError>)
        ensures
            r matches Ok(d) ==> page_data_read_from(o@, d),
            page_data_fields_ok(o@) <==> r is Ok,
            r matches Err(e) ==> e.path@.len() == 1 && page_data_failed_at(o@, e.path@[0]@),
    {
        let body = field_str(o, "body")?;
        let url = field_str(o, "url")?;
        let headline = field_str(o, "headline")?;
        let content_type = field_content_type(o, "content-type")?;
        let show_after = opt_field_timestamp(o, "show-after")?;
        let promotional_card_image = opt_field_str(o, "promotional-card-image")?;
        Ok(PageData { body, url, headline, content_type, show_after, promotional_card_image })
    }

    /// Appends the fields to an object's entries, in declaration order.
    fn push_fields(&self, e: &mut Vec<(String, Json)>)
        requires
            old(e)@.len() == 0,
        ensures
            page_data_written_as(final(e)@, *self),
    {
        e.push((String::from_str("body"), str_json(&self.body)));
        e.push((String::from_str("url"), str_json(&self.url)));
        e.push((String::from_str("headline"), str_json(&self.headline)));
        e.push((String::from_str("content-type"), content_type_json(&self.content_type)));
        e.push((String::from_str("show-after"), opt_timestamp_json(&self.show_after)));
        e.push((String::from_str("promotional-card-image"), opt_str_json(&self.promotional_card_image)));
    }

    /// Reads an object of this shape; a key outside the schema is refused.
    pub fn from_json(j: &Json) -> (r: Result<PageData, DecodeError>)
        ensures
            !(j is Object) ==> r is Err,
            r matches Ok(d) ==> (j matches Json::Object(e) && page_data_read_from(e@, d)),
            page_data_wire_ok(*j) <==> r is Ok,
            r matches Err(e) ==> match *j {
                Json::Object(o) => e.path@.len() == 1 && page_data_error_at(o@, e.path@[0]@),
                _ => e.path@.len() == 0,
            },
            r is Ok ==> (j matches Json::Object(e) && keys_within(e@, seq!["body", "url", "headline", "content-type", "show-after", "promotional-card-image"])),
    {
        match j {
            Json::Object(o) => {
                check_keys(o, &vec!["body", "url", "headline", "content-type", "show-after", "promotional-card-image"])?;
                PageData::from_fields(o)
            },
            _ => Err(not_an_object()),
        }
    }

    /// Writes an object of this shape.
    pub fn to_json(&self) -> (r: Json)
        ensures
            r matches Json::Object(e) && page_data_written_as(e@, *self),
    {
        let mut e: Vec<(String, Json)> = Vec::new();
        self.push_fields(&mut e);
        Json::Object(e)
    }
}

/// The attributes of a post. The meaning of `api_code` and `subhead` is not known.
#[derive(Clone, Debug, PartialEq)]
pub struct PostData {
    pub api_code: Option<String>,
    pub body: String,
    pub card_image: Option<String>,
    pub content_type: ContentType,
    pub expires_at: Option<Date>,
    pub external_link: Option<String>,
    pub headline: String,
    pub offer_code: Option<String>,
    pub order: Option<u64>,
    pub published: bool,
    pub subhead: Option<String>,
}

/// Whether each plain field of `d` is what the entries hold under its key.
pub open spec fn post_data_read_from(o: Seq<(String, Json)>, d: PostData) -> bool {
    &&& match d.api_code {
        Some(v) => lookup(o, "api-code"@) matches Some(j) && json_str(j) == Some(v@),
        None => lookup(o, "api-code"@) is None || lookup(o, "api-code"@) == Some(Json::Null),
    }
    &&& (lookup(o, "body"@) matches Some(j) && json_str(j) == Some(d.body@))
    &&& match d.card_image {
        Some(v) => lookup(o, "card-image"@) matches Some(j) && json_str(j) == Some(v@),
        None => lookup(o, "card-image"@) is None || lookup(o, "card-image"@) == Some(Json::Null),
    }
    &&& (lookup(o, "content-type"@) matches Some(j) && json_content_type(j) == Some(d.content_type))
    &&& match d.expires_at {
        Some(v) => lookup(o, "expires-at"@) matches Some(j) && json_date(j) == Some(v@),
        None => lookup(o, "expires-at"@) is None || lookup(o, "expires-at"@) == Some(Json::Null),
    }
    &&& match d.external_link {
        Some(v) => lookup(o, "external-link"@) matches Some(j) && json_str(j) == Some(v@),
        None => lookup(o, "external-link"@) is None || lookup(o, "external-link"@) == Some(Json::Null),
    }
    &&& (lookup(o, "headline"@) matches Some(j) && json_str(j) == Some(d.headline@))
    &&& match d.offer_code {
        Some(v) => lookup(o, "offer-code"@) matches Some(j) && json_str(j) == Some(v@),
        None => lookup(o, "offer-code"@) is None || lookup(o, "offer-code"@) == Some(Json::Null),
    }
    &&& match d.order {
        Some(v) => lookup(o, "order"@) matches Some(j) && json_u64(j) == Some(v),
        None => lookup(o, "order"@) is None || lookup(o, "order"@) == Some(Json::Null),
    }
    &&& (lookup(o, "published"@) matches Some(j) && json_bool(j) == Some(d.published))
    &&& match d.subhead {
        Some(v) => lookup(o, "subhead"@) matches Some(j) && json_str(j) == Some(v@),
        None => lookup(o, "subhead"@) is None || lookup(o, "subhead"@) == Some(Json::Null),
    }
}

/// Whether the entries are the fields of `d`, in order, each under its key in its wire form.
pub open spec fn post_data_written_as(e: Seq<(String, Json)>, d: PostData) -> bool {
    &&& e.len() == 11
    &&& e[0].0@ == "api-code"@ && match d.api_code {
        Some(v) => writes_str(e[0].1, v),
        None => e[0].1 == Json::Null,
    }
    &&& e[1].0@ == "body"@ && writes_str(e[1].1, d.body)
    &&& e[2].0@ == "card-image"@ && match d.card_image {
        Some(v) => writes_str(e[2].1, v),
        None => e[2].1 == Json::Null,
    }
    &&& e[3].0@ == "content-type"@ && writes_content_type(e[3].1, d.content_type)
    &&& e[4].0@ == "expires-at"@ && match d.expires_at {
        Some(v) => writes_date(e[4].1, v),
        None => e[4].1 == Json::Null,
    }
    &&& e[5].0@ == "external-link"@ && match d.external_link {
        Some(v) => writes_str(e[5].1, v),
        None => e[5].1 == Json::Null,
    }
    &&& e[6].0@ == "headline"@ && writes_str(e[6].1, d.headline)
    &&& e[7].0@ == "offer-code"@ && match d.offer_code {
        Some(v) => writes_str(e[7].1, v),
        None => e[7].1 == Json::Null,
    }
    &&& e[8].0@ == "order"@ && match d.order {
        Some(v) => writes_u64(e[8].1, v),
        None => e[8].1 == Json::Null,
    }
    &&& e[9].0@ == "published"@ && writes_bool(e[9].1, d.published)
    &&& e[10].0@ == "subhead"@ && match d.subhead {
        Some(v) => writes_str(e[10].1, v),
        None => e[10].1 == Json::Null,
    }
}

/// Whether every field can be read from the entries.
pub open spec fn post_data_fields_ok(o: Seq<(String, Json)>) -> bool {
    &&& match lookup(o, "api-code"@) {
        Some(j) => j is Null || json_str(j) is Some,
        None => true,
    }
    &&& (lookup(o, "body"@) matches Some(j) && json_str(j) is Some)
    &&& match lookup(o, "card-image"@) {
        Some(j) => j is Null || json_str(j) is Some,
        None => true,
    }
    &&& (lookup(o, "content-type"@) matches Some(j) && json_content_type(j) is Some)
    &&& match lookup(o, "expires-at"@) {
        Some(j) => j is Null || json_date(j) is Some,
        None => true,
    }
    &&& match lookup(o, "external-link"@) {
        Some(j) => j is Null || json_str(j) is Some,
        None => true,
    }
    &&& (lookup(o, "headline"@) matches Some(j) && json_str(j) is Some)
    &&& match lookup(o, "offer-code"@) {
        Some(j) => j is Null || json_str(j) is Some,
        None => true,
    }
    &&& match lookup(o, "order"@) {
        Some(j) => j is Null || json_u64(j) is Some,
        None => true,
    }
    &&& (lookup(o, "published"@) matches Some(j) && json_bool(j) is Some)
    &&& match lookup(o, "subhead"@) {
        Some(j) => j is Null || json_str(j) is Some,
        None => true,
    }
}

/// Whether `p` is the key a failed read of the fields names: the first
/// field, in schema order, that cannot be read.
pub open spec fn post_data_failed_at(o: Seq<(String, Json)>, p: Seq<char>) -> bool {
    ||| (p == "api-code"@ && !(match lookup(o, "api-code"@) { Some(j) => j is Null || json_str(j) is Some, None => true }))
    ||| ((match lookup(o, "api-code"@) { Some(j) => j is Null || json_str(j) is Some, None => true }) && p == "body"@ && !(lookup(o, "body"@) matches Some(j) && json_str(j) is Some))
    ||| ((match lookup(o, "api-code"@) { Some(j) => j is Null || json_str(j) is Some, None => true }) && (lookup(o, "body"@) matches Some(j) && json_str(j) is Some) && p == "card-image"@ && !(match lookup(o, "card-image"@) { Some(j) => j is Null || json_str(j) is Some, None => true }))
    ||| ((match lookup(o, "api-code"@) { Some(j) => j is Null || json_str(j) is Some, None => true }) && (lookup(o, "body"@) matches Some(j) && json_str(j) is Some) && (match lookup(o, "card-image"@) { Some(j) => j is Null || json_str(j) is Some, None => true }) && p == "content-type"@ && !(lookup(o, "content-type"@) matches Some(j) && json_content_type(j) is Some))
    ||| ((match lookup(o, "api-code"@) { Some(j) => j is Null || json_str(j) is Some, None => true }) && (lookup(o, "body"@) matches Some(j) && json_str(j) is Some) && (match lookup(o, "card-image"@) { Some(j) => j is Null || json_str(j) is Some, None => true }) && (lookup(o, "content-type"@) matches Some(j) && json_content_type(j) is Some) && p == "expires-at"@ && !(match lookup(o, "expires-at"@) { Some(j) => j is Null || json_date(j) is Some, None => true }))
    ||| ((match lookup(o, "api-code"@) { Some(j) => j is Null || json_str(j) is Some, None => true }) && (lookup(o, "body"@) matches Some(j) && json_str(j) is Some) && (match lookup(o, "card-image"@) { Some(j) => j is Null || json_str(j) is Some, None => true }) && (lookup(o, "content-type"@) matches Some(j) && json_content_type(j) is Some) && (match lookup(o, "expires-at"@) { Some(j) => j is Null || json_date(j) is Some, None => true }) && p == "external-link"@ && !(match lookup(o, "external-link"@) { Some(j) => j is Null || json_str(j) is Some, None => true }))
    ||| ((match lookup(o, "api-code"@) { Some(j) => j is Null || json_str(j) is Some, None => true }) && (lookup(o, "body"@) matches Some(j) && json_str(j) is Some) && (match lookup(o, "card-image"@) { Some(j) => j is Null || json_str(j) is Some, None => true }) && (lookup(o, "content-type"@) matches Some(j) && json_content_type(j) is Some) && (match lookup(o, "expires-at"@) { Some(j) => j is Null || json_date(j) is Some, None => true }) && (match lookup(o, "external-link"@) { Some(j) => j is Null || json_str(j) is Some, None => true }) && p == "headline"@ && !(lookup(o, "headline"@) matches Some(j) && json_str(j) is Some))
    ||| ((match lookup(o, "api-code"@) { Some(j) => j is Null || json_str(j) is Some, None => true }) && (lookup(o, "body"@) matches Some(j) && json_str(j) is Some) && (match lookup(o, "card-image"@) { Some(j) => j is Null || json_str(j) is Some, None => true }) && (lookup(o, "content-type"@) matches Some(j) && json_content_type(j) is Some) && (match lookup(o, "expires-at"@) { Some(j) => j is Null || json_date(j) is Some, None => true }) && (match lookup(o, "external-link"@) { Some(j) => j is Null || json_str(j) is Some, None => true }) && (lookup(o, "headline"@) matches Some(j) && json_str(j) is Some) && p == "offer-code"@ && !(match lookup(o, "offer-code"@) { Some(j) => j is Null || json_str(j) is Some, None => true }))
    ||| ((match lookup(o, "api-code"@) { Some(j) => j is Null || json_str(j) is Some, None => true }) && (lookup(o, "body"@) matches Some(j) && json_str(j) is Some) && (match lookup(o, "card-image"@) { Some(j) => j is Null || json_str(j) is Some, None => true }) && (lookup(o, "content-type"@) matches Some(j) && json_content_type(j) is Some) && (match lookup(o, "expires-at"@) { Some(j) => j is Null || json_date(j) is Some, None => true }) && (match lookup(o, "external-link"@) { Some(j) => j is Null || json_str(j) is Some, None => true }) && (lookup(o, "headline"@) matches Some(j) && json_str(j) is Some) && (match lookup(o, "offer-code"@) { Some(j) => j is Null || json_str(j) is Some, None => true }) && p == "order"@ && !(match lookup(o, "order"@) { Some(j) => j is Null || json_u64(j) is Some, None => true }))
    ||| ((match lookup(o, "api-code"@) { Some(j) => j is Null || json_str(j) is Some, None => true }) && (lookup(o, "body"@) matches Some(j) && json_str(j) is Some) && (match lookup(o, "card-image"@) { Some(j) => j is Null || json_str(j) is Some, None => true }) && (lookup(o, "content-type"@) matches Some(j) && json_content_type(j) is Some) && (match lookup(o, "expires-at"@) { Some(j) => j is Null || json_date(j) is Some, None => true }) && (match lookup(o, "external-link"@) { Some(j) => j is Null || json_str(j) is Some, None => true }) && (lookup(o, "headline"@) matches Some(j) && json_str(j) is Some) && (match lookup(o, "offer-code"@) { Some(j) => j is Null || json_str(j) is Some, None => true }) && (match lookup(o, "order"@) { Some(j) => j is Null || json_u64(j) is Some, None => true }) && p == "published"@ && !(lookup(o, "published"@) matches Some(j) && json_bool(j) is Some))
    ||| ((match lookup(o, "api-code"@) { Some(j) => j is Null || json_str(j) is Some, None => true }) && (lookup(o, "body"@) matches Some(j) && json_str(j) is Some) && (match lookup(o, "card-image"@) { Some(j) => j is Null || json_str(j) is Some, None => true }) && (lookup(o, "content-type"@) matches Some(j) && json_content_type(j) is Some) && (match lookup(o, "expires-at"@) { Some(j) => j is Null || json_date(j) is Some, None => true }) && (match lookup(o, "external-link"@) { Some(j) => j is Null || json_str(j) is Some, None => true }) && (lookup(o, "headline"@) matches Some(j) && json_str(j) is Some) && (match lookup(o, "offer-code"@) { Some(j) => j is Null || json_str(j) is Some, None => true }) && (match lookup(o, "order"@) { Some(j) => j is Null || json_u64(j) is Some, None => true }) && (lookup(o, "published"@) matches Some(j) && json_bool(j) is Some) && p == "subhead"@ && !(match lookup(o, "subhead"@) { Some(j) => j is Null || json_str(j) is Some, None => true }))
}

/// Whether `p` is the key a failed read of a PostData object names: the
/// first unknown key, else the first unreadable field.
pub open spec fn post_data_error_at(o: Seq<(String, Json)>, p: Seq<char>) -> bool {
    if keys_within(o, seq!["api-code", "body", "card-image", "content-type", "expires-at", "external-link", "headline", "offer-code", "order", "published", "subhead"]) {
        post_data_failed_at(o, p)
    } else {
        !is_one_of(p, seq!["api-code", "body", "card-image", "content-type", "expires-at", "external-link", "headline", "offer-code", "order", "published", "subhead"])
    }
}

/// Whether a wire object is a readable PostData: no unknown key, and every field readable.
pub open spec fn post_data_wire_ok(j: Json) -> bool {
    match j {
        Json::Object(e) => keys_within(e@, seq!["api-code", "body", "card-image", "content-type", "expires-at", "external-link", "headline", "offer-code", "order", "published", "subhead"]) && post_data_fields_ok(e@),
        _ => false,
    }
}

impl PostData {
    /// Reads the fields from an object's entries; keys of other fields are ignored.
    fn from_fields(o: &Vec<(String, Json)>) -> (r: Result<PostData, DecodeError>)
        ensures
            r matches Ok(d) ==> post_data_read_from(o@, d),
            post_data_fields_ok(o@) <==> r is Ok,
            r matches Err(e) ==> e.path@.len() == 1 && post_data_failed_at(o@, e.path@[0]@),
    {
        let api_code = opt_field_str(o, "api-code")?;
        let body = field_str(o, "body")?;
        let card_image = opt_field_str(o, "card-image")?;
        let content_type = field_content_type(o, "content-type")?;
        let expires_at = opt_field_date(o, "expires-at")?;
        let external_link = opt_field_str(o, "external-link")?;
        let headline = field_str(o, "headline")?;
        let offer_code = opt_field_str(o, "offer-code")?;
        let order = opt_field_u64(o, "order")?;
        let published = field_bool(o, "published")?;
        let subhead = opt_field_str(o, "subhead")?;
        Ok(PostData { api_code, body, card_image, content_type, expires_at, external_link, headline, offer_code, order, published, subhead })
    }

    /// Appends the fields to an object's entries, in declaration order.
    fn push_fields(&self, e: &mut Vec<(String, Json)>)
        requires
            old(e)@.len() == 0,
        ensures
            post_data_written_as(final(e)@, *self),
    {
        e.push((String::from_str("api-code"), opt_str_json(&self.api_code)));
        e.push((String::from_str("body"), str_json(&self.body)));
        e.push((String::from_str("card-image"), opt_str_json(&self.card_image)));
        e.push((String::from_str("content-type"), content_type_json(&self.content_type)));
        e.push((String::from_str("expires-at"), opt_date_json(&self.expires_at)));
        e.push((String::from_str("external-link"), opt_str_json(&self.external_link)));
        e.push((String::from_str("headline"), str_json(&self.headline)));
        e.push((String::from_str("offer-code"), opt_str_json(&self.offer_code)));
        e.push((String::from_str("order"), opt_u64_json(&self.order)));
        e.push((String::from_str("published"), bool_json(&self.published)));
        e.push((String::from_str("subhead"), opt_str_json(&self.subhead)));
    }

    /// Reads an object of this shape; a key outside the schema is refused.
    pub fn from_json(j: &Json) -> (r: Result<PostData, DecodeError>)
        ensures
            !(j is Object) ==> r is Err,
            r matches Ok(d) ==> (j matches Json::Object(e) && post_data_read_from(e@, d)),
            post_data_wire_ok(*j) <==> r is Ok,
            r matches Err(e) ==> match *j {
                Json::Object(o) => e.path@.len() == 1 && post_data_error_at(o@, e.path@[0]@),
                _ => e.path@.len() == 0,
            },
            r is Ok ==> (j matches Json::Object(e) && keys_within(e@, seq!["api-code", "body", "card-image", "content-type", "expires-at", "external-link", "headline", "offer-code", "order", "published", "subhead"])),
    {
        match j {
            Json::Object(o) => {
                check_keys(o, &vec!["api-code", "body", "card-image", "content-type", "expires-at", "external-link", "headline", "offer-code", "order", "published", "subhead"])?;
                PostData::from_fields(o)
            },
            _ => Err(not_an_object()),
        }
    }

    /// Writes an object of this shape.
    pub fn to_json(&self) -> (r: Json)
        ensures
            r matches Json::Object(e) && post_data_written_as(e@, *self),
    {
        let mut e: Vec<(String, Json)> = Vec::new();
        self.push_fields(&mut e);
        Json::Object(e)
    }
}

/// The attributes of a project. `primary` is an integer whose meaning is not known; it is no enumeration.
#[derive(Clone, Debug, PartialEq)]
pub struct ProjectData {
    pub cover: Option<String>,
    pub created_at: Timestamp,
    pub excerpt: Option<String>,
    pub pinterest_url: Option<String>,
    pub playlist_url: Option<String>,
    pub primary: Option<i64>,
    pub privacy: PrivacySetting,
    pub slug: String,
    pub status: ProjectStatus,
    pub summary: Option<String>,
    pub title: String,
    pub unit_count: Option<u64>,
    pub unit_type: UnitType,
    pub user_id: u64,
    pub writing_type: WritingType,
}

/// Whether each plain field of `d` is what the entries hold under its key.
pub open spec fn project_data_read_from(o: Seq<(String, Json)>, d: ProjectData) -> bool {
    &&& match d.cover {
        Some(v) => lookup(o, "cover"@) matches Some(j) && json_str(j) == Some(v@),
        None => lookup(o, "cover"@) is None || lookup(o, "cover"@) == Some(Json::Null),
    }
    &&& (lookup(o, "created-at"@) matches Some(j) && json_timestamp(j) == Some(d.created_at@))
    &&& match d.excerpt {
        Some(v) => lookup(o, "excerpt"@) matches Some(j) && json_str(j) == Some(v@),
        None => lookup(o, "excerpt"@) is None || lookup(o, "excerpt"@) == Some(Json::Null),
    }
    &&& match d.pinterest_url {
        Some(v) => lookup(o, "pinterest-url"@) matches Some(j) && json_str(j) == Some(v@),
        None => lookup(o, "pinterest-url"@) is None || lookup(o, "pinterest-url"@) == Some(Json::Null),
    }
    &&& match d.playlist_url {
        Some(v) => lookup(o, "playlist-url"@) matches Some(j) && json_str(j) == Some(v@),
        None => lookup(o, "playlist-url"@) is None || lookup(o, "playlist-url"@) == Some(Json::Null),
    }
    &&& match d.primary {
        Some(v) => lookup(o, "primary"@) matches Some(j) && json_i64(j) == Some(v),
        None => lookup(o, "primary"@) is None || lookup(o, "primary"@) == Some(Json::Null),
    }
    &&& (lookup(o, "privacy"@) matches Some(j) && json_privacy_setting(j) == Some(d.privacy))
    &&& (lookup(o, "slug"@) matches Some(j) && json_str(j) == Some(d.slug@))
    &&& (lookup(o, "status"@) matches Some(j) && json_project_status(j) == Some(d.status))
    &&& match d.summary {
        Some(v) => lookup(o, "summary"@) matches Some(j) && json_str(j) == Some(v@),
        None => lookup(o, "summary"@) is None || lookup(o, "summary"@) == Some(Json::Null),
    }
    &&& (lookup(o, "title"@) matches Some(j) && json_str(j) == Some(d.title@))
    &&& match d.unit_count {
        Some(v) => lookup(o, "unit-count"@) matches Some(j) && json_u64(j) == Some(v),
        None => lookup(o, "unit-count"@) is None || lookup(o, "unit-count"@) == Some(Json::Null),
    }
    &&& (lookup(o, "unit-type"@) matches Some(j) && json_unit_type(j) == Some(d.unit_type))
    &&& (lookup(o, "user-id"@) matches Some(j) && json_u64(j) == Some(d.user_id))
    &&& (lookup(o, "writing-type"@) matches Some(j) && json_writing_type(j) == Some(d.writing_type))
}

/// Whether the entries are the fields of `d`, in order, each under its key in its wire form.
pub open spec fn project_data_written_as(e: Seq<(String, Json)>, d: ProjectData) -> bool {
    &&& e.len() == 15
    &&& e[0].0@ == "cover"@ && match d.cover {
        Some(v) => writes_str(e[0].1, v),
        None => e[0].1 == Json::Null,
    }
    &&& e[1].0@ == "created-at"@ && writes_timestamp(e[1].1, d.created_at)
    &&& e[2].0@ == "excerpt"@ && match d.excerpt {
        Some(v) => writes_str(e[2].1, v),
        None => e[2].1 == Json::Null,
    }
    &&& e[3].0@ == "pinterest-url"@ && match d.pinterest_url {
        Some(v) => writes_str(e[3].1, v),
        None => e[3].1 == Json::Null,
    }
    &&& e[4].0@ == "playlist-url"@ && match d.playlist_url {
        Some(v) => writes_str(e[4].1, v),
        None => e[4].1 == Json::Null,
    }
    &&& e[5].0@ == "primary"@ && match d.primary {
        Some(v) => writes_i64(e[5].1, v),
        None => e[5].1 == Json::Null,
    }
    &&& e[6].0@ == "privacy"@ && writes_privacy_setting(e[6].1, d.privacy)
    &&& e[7].0@ == "slug"@ && writes_str(e[7].1, d.slug)
    &&& e[8].0@ == "status"@ && writes_project_status(e[8].1, d.status)
    &&& e[9].0@ == "summary"@ && match d.summary {
        Some(v) => writes_str(e[9].1, v),
        None => e[9].1 == Json::Null,
    }
    &&& e[10].0@ == "title"@ && writes_str(e[10].1, d.title)
    &&& e[11].0@ == "unit-count"@ && match d.unit_count {
        Some(v) => writes_u64(e[11].1, v),
        None => e[11].1 == Json::Null,
    }
    &&& e[12].0@ == "unit-type"@ && writes_unit_type(e[12].1, d.unit_type)
    &&& e[13].0@ == "user-id"@ && writes_u64(e[13].1, d.user_id)
    &&& e[14].0@ == "writing-type"@ && writes_writing_type(e[14].1, d.writing_type)
}

/// Whether every field can be read from the entries.
pub open spec fn project_data_fields_ok(o: Seq<(String, Json)>) -> bool {
    &&& match lookup(o, "cover"@) {
        Some(j) => j is Null || json_str(j) is Some,
        None => true,
    }
    &&& (lookup(o, "created-at"@) matches Some(j) && json_timestamp(j) is Some)
    &&& match lookup(o, "excerpt"@) {
        Some(j) => j is Null || json_str(j) is Some,
        None => true,
    }
    &&& match lookup(o, "pinterest-url"@) {
        Some(j) => j is Null || json_str(j) is Some,
        None => true,
    }
    &&& match lookup(o, "playlist-url"@) {
        Some(j) => j is Null || json_str(j) is Some,
        None => true,
    }
    &&& match lookup(o, "primary"@) {
        Some(j) => j is Null || json_i64(j) is Some,
        None => true,
    }
    &&& (lookup(o, "privacy"@) matches Some(j) && json_privacy_setting(j) is Some)
    &&& (lookup(o, "slug"@) matches Some(j) && json_str(j) is Some)
    &&& (lookup(o, "status"@) matches Some(j) && json_project_status(j) is Some)
    &&& match lookup(o, "summary"@) {
        Some(j) => j is Null || json_str(j) is Some,
        None => true,
    }
    &&& (lookup(o, "title"@) matches Some(j) && json_str(j) is Some)
    &&& match lookup(o, "unit-count"@) {
        Some(j) => j is Null || json_u64(j) is Some,
        None => true,
    }
    &&& (lookup(o, "unit-type"@) matches Some(j) && json_unit_type(j) is Some)
    &&& (lookup(o, "user-id"@) matches Some(j) && json_u64(j) is Some)
    &&& (lookup(o, "writing-type"@) matches Some(j) && json_writing_type(j) is Some)
}

/// Whether `p` is the key a failed read of the fields names: the first
/// field, in schema order, that cannot be read.
pub open spec fn project_data_failed_at(o: Seq<(String, Json)>, p: Seq<char>) -> bool {
    ||| (p == "cover"@ && !(match lookup(o, "cover"@) { Some(j) => j is Null || json_str(j) is Some, None => true }))
    ||| ((match lookup(o, "cover"@) { Some(j) => j is Null || json_str(j) is Some, None => true }) && p == "created-at"@ && !(lookup(o, "created-at"@) matches Some(j) && json_timestamp(j) is Some))
    ||| ((match lookup(o, "cover"@) { Some(j) => j is Null || json_str(j) is Some, None => true }) && (lookup(o, "created-at"@) matches Some(j) && json_timestamp(j) is Some) && p == "excerpt"@ && !(match lookup(o, "excerpt"@) { Some(j) => j is Null || json_str(j) is Some, None => true }))
    ||| ((match lookup(o, "cover"@) { Some(j) => j is Null || json_str(j) is Some, None => true }) && (lookup(o, "created-at"@) matches Some(j) && json_timestamp(j) is Some) && (match lookup(o, "excerpt"@) { Some(j) => j is Null || json_str(j) is Some, None => true }) && p == "pinterest-url"@ && !(match lookup(o, "pinterest-url"@) { Some(j) => j is Null || json_str(j) is Some, None => true }))
    ||| ((match lookup(o, "cover"@) { Some(j) => j is Null || json_str(j) is Some, None => true }) && (lookup(o, "created-at"@) matches Some(j) && json_timestamp(j) is Some) && (match lookup(o, "excerpt"@) { Some(j) => j is Null || json_str(j) is Some, None => true }) && (match lookup(o, "pinterest-url"@) { Some(j) => j is Null || json_str(j) is Some, None => true }) && p == "playlist-url"@ && !(match lookup(o, "playlist-url"@) { Some(j) => j is Null || json_str(j) is Some, None => true }))
    ||| ((match lookup(o, "cover"@) { Some(j) => j is Null || json_str(j) is Some, None => true }) && (lookup(o, "created-at"@) matches Some(j) && json_timestamp(j) is Some) && (match lookup(o, "excerpt"@) { Some(j) => j is Null || json_str(j) is Some, None => true }) && (match lookup(o, "pinterest-url"@) { Some(j) => j is Null || json_str(j) is Some, None => true }) && (match lookup(o, "playlist-url"@) { Some(j) => j is Null || json_str(j) is Some, None => true }) && p == "primary"@ && !(match lookup(o, "primary"@) { Some(j) => j is Null || json_i64(j) is Some, None => true }))
    ||| ((match lookup(o, "cover"@) { Some(j) => j is Null || json_str(j) is Some, None => true }) && (lookup(o, "created-at"@) matches Some(j) && json_timestamp(j) is Some) && (match lookup(o, "excerpt"@) { Some(j) => j is Null || json_str(j) is Some, None => true }) && (match lookup(o, "pinterest-url"@) { Some(j) => j is Null || json_str(j) is Some, None => true }) && (match lookup(o, "playlist-url"@) { Some(j) => j is Null || json_str(j) is Some, None => true }) && (match lookup(o, "primary"@) { Some(j) => j is Null || json_i64(j) is Some, None => true }) && p == "privacy"@ && !(lookup(o, "privacy"@) matches Some(j) && json_privacy_setting(j) is Some))
    ||| ((match lookup(o, "cover"@) { Some(j) => j is Null || json_str(j) is Some, None => true }) && (lookup(o, "created-at"@) matches Some(j) && json_timestamp(j) is Some) && (match lookup(o, "excerpt"@) { Some(j) => j is Null || json_str(j) is Some, None => true }) && (match lookup(o, "pinterest-url"@) { Some(j) => j is Null || json_str(j) is Some, None => true }) && (match lookup(o, "playlist-url"@) { Some(j) => j is Null || json_str(j) is Some, None => true }) && (match lookup(o, "primary"@) { Some(j) => j is Null || json_i64(j) is Some, None => true }) && (lookup(o, "privacy"@) matches Some(j) && json_privacy_setting(j) is Some) && p == "slug"@ && !(lookup(o, "slug"@) matches Some(j) && json_str(j) is Some))
    ||| ((match lookup(o, "cover"@) { Some(j) => j is Null || json_str(j) is Some, None => true }) && (lookup(o, "created-at"@) matches Some(j) && json_timestamp(j) is Some) && (match lookup(o, "excerpt"@) { Some(j) => j is Null || json_str(j) is Some, None => true }) && (match lookup(o, "pinterest-url"@) { Some(j) => j is Null || json_str(j) is Some, None => true }) && (match lookup(o, "playlist-url"@) { Some(j) => j is Null || json_str(j) is Some, None => true }) && (match lookup(o, "primary"@) { Some(j) => j is Null || json_i64(j) is Some, None => true }) && (lookup(o, "privacy"@) matches Some(j) && json_privacy_setting(j) is Some) && (lookup(o, "slug"@) matches Some(j) && json_str(j) is Some) && p == "status"@ && !(lookup(o, "status"@) matches Some(j) && json_project_status(j) is Some))
    ||| ((match lookup(o, "cover"@) { Some(j) => j is Null || json_str(j) is Some, None => true }) && (lookup(o, "created-at"@) matches Some(j) && json_timestamp(j) is Some) && (match lookup(o, "excerpt"@) { Some(j) => j is Null || json_str(j) is Some, None => true }) && (match lookup(o, "pinterest-url"@) { Some(j) => j is Null || json_str(j) is Some, None => true }) && (match lookup(o, "playlist-url"@) { Some(j) => j is Null || json_str(j) is Some, None => true }) && (match lookup(o, "primary"@) { Some(j) => j is Null || json_i64(j) is Some, None => true }) && (lookup(o, "privacy"@) matches Some(j) && json_privacy_setting(j) is Some) && (lookup(o, "slug"@) matches Some(j) && json_str(j) is Some) && (lookup(o, "status"@) matches Some(j) && json_project_status(j) is Some) && p == "summary"@ && !(match lookup(o, "summary"@) { Some(j) => j is Null || json_str(j) is Some, None => true }))
    ||| ((match lookup(o, "cover"@) { Some(j) => j is Null || json_str(j) is Some, None => true }) && (lookup(o, "created-at"@) matches Some(j) && json_timestamp(j) is Some) && (match lookup(o, "excerpt"@) { Some(j) => j is Null || json_str(j) is Some, None => true }) && (match lookup(o, "pinterest-url"@) { Some(j) => j is Null || json_str(j) is Some, None => true }) && (match lookup(o, "playlist-url"@) { Some(j) => j is Null || json_str(j) is Some, None => true }) && (match lookup(o, "primary"@) { Some(j) => j is Null || json_i64(j) is Some, None => true }) && (lookup(o, "privacy"@) matches Some(j) && json_privacy_setting(j) is Some) && (lookup(o, "slug"@) matches Some(j) && json_str(j) is Some) && (lookup(o, "status"@) matches Some(j) && json_project_status(j) is Some) && (match lookup(o, "summary"@) { Some(j) => j is Null || json_str(j) is Some, None => true }) && p == "title"@ && !(lookup(o, "title"@) matches Some(j) && json_str(j) is Some))
    ||| ((match lookup(o, "cover"@) { Some(j) => j is Null || json_str(j) is Some, None => true }) && (lookup(o, "created-at"@) matches Some(j) && json_timestamp(j) is Some) && (match lookup(o, "excerpt"@) { Some(j) => j is Null || json_str(j) is Some, None => true }) && (match lookup(o, "pinterest-url"@) { Some(j) => j is Null || json_str(j) is Some, None => true }) && (match lookup(o, "playlist-url"@) { Some(j) => j is Null || json_str(j) is Some, None => true }) && (match lookup(o, "primary"@) { Some(j) => j is Null || json_i64(j) is Some, None => true }) && (lookup(o, "privacy"@) matches Some(j) && json_privacy_setting(j) is Some) && (lookup(o, "slug"@) matches Some(j) && json_str(j) is Some) && (lookup(o, "status"@) matches Some(j) && json_project_status(j) is Some) && (match lookup(o, "summary"@) { Some(j) => j is Null || json_str(j) is Some, None => true }) && (lookup(o, "title"@) matches Some(j) && json_str(j) is Some) && p == "unit-count"@ && !(match lookup(o, "unit-count"@) { Some(j) => j is Null || json_u64(j) is Some, None => true }))
    ||| ((match lookup(o, "cover"@) { Some(j) => j is Null || json_str(j) is Some, None => true }) && (lookup(o, "created-at"@) matches Some(j) && json_timestamp(j) is Some) && (match lookup(o, "excerpt"@) { Some(j) => j is Null || json_str(j) is Some, None => true }) && (match lookup(o, "pinterest-url"@) { Some(j) => j is Null || json_str(j) is Some, None => true }) && (match lookup(o, "playlist-url"@) { Some(j) => j is Null || json_str(j) is Some, None => true }) && (match lookup(o, "primary"@) { Some(j) => j is Null || json_i64(j) is Some, None => true }) && (lookup(o, "privacy"@) matches Some(j) && json_privacy_setting(j) is Some) && (lookup(o, "slug"@) matches Some(j) && json_str(j) is Some) && (lookup(o, "status"@) matches Some(j) && json_project_status(j) is Some) && (match lookup(o, "summary"@) { Some(j) => j is Null || json_str(j) is Some, None => true }) && (lookup(o, "title"@) matches Some(j) && json_str(j) is Some) && (match lookup(o, "unit-count"@) { Some(j) => j is Null || json_u64(j) is Some, None => true }) && p == "unit-type"@ && !(lookup(o, "unit-type"@) matches Some(j) && json_unit_type(j) is Some))
    ||| ((match lookup(o, "cover"@) { Some(j) => j is Null || json_str(j) is Some, None => true }) && (lookup(o, "created-at"@) matches Some(j) && json_timestamp(j) is Some) && (match lookup(o, "excerpt"@) { Some(j) => j is Null || json_str(j) is Some, None => true }) && (match lookup(o, "pinterest-url"@) { Some(j) => j is Null || json_str(j) is Some, None => true }) && (match lookup(o, "playlist-url"@) { Some(j) => j is Null || json_str(j) is Some, None => true }) && (match lookup(o, "primary"@) { Some(j) => j is Null || json_i64(j) is Some, None => true }) && (lookup(o, "privacy"@) matches Some(j) && json_privacy_setting(j) is Some) && (lookup(o, "slug"@) matches Some(j) && json_str(j) is Some) && (lookup(o, "status"@) matches Some(j) && json_project_status(j) is Some) && (match lookup(o, "summary"@) { Some(j) => j is Null || json_str(j) is Some, None => true }) && (lookup(o, "title"@) matches Some(j) && json_str(j) is Some) && (match lookup(o, "unit-count"@) { Some(j) => j is Null || json_u64(j) is Some, None => true }) && (lookup(o, "unit-type"@) matches Some(j) && json_unit_type(j) is Some) && p == "user-id"@ && !(lookup(o, "user-id"@) matches Some(j) && json_u64(j) is Some))
    ||| ((match lookup(o, "cover"@) { Some(j) => j is Null || json_str(j) is Some, None => true }) && (lookup(o, "created-at"@) matches Some(j) && json_timestamp(j) is Some) && (match lookup(o, "excerpt"@) { Some(j) => j is Null || json_str(j) is Some, None => true }) && (match lookup(o, "pinterest-url"@) { Some(j) => j is Null || json_str(j) is Some, None => true }) && (match lookup(o, "playlist-url"@) { Some(j) => j is Null || json_str(j) is Some, None => true }) && (match lookup(o, "primary"@) { Some(j) => j is Null || json_i64(j) is Some, None => true }) && (lookup(o, "privacy"@) matches Some(j) && json_privacy_setting(j) is Some) && (lookup(o, "slug"@) matches Some(j) && json_str(j) is Some) && (lookup(o, "status"@) matches Some(j) && json_project_status(j) is Some) && (match lookup(o, "summary"@) { Some(j) => j is Null || json_str(j) is Some, None => true }) && (lookup(o, "title"@) matches Some(j) && json_str(j) is Some) && (match lookup(o, "unit-count"@) { Some(j) => j is Null || json_u64(j) is Some, None => true }) && (lookup(o, "unit-type"@) matches Some(j) && json_unit_type(j) is Some) && (lookup(o, "user-id"@) matches Some(j) && json_u64(j) is Some) && p == "writing-type"@ && !(lookup(o, "writing-type"@) matches Some(j) && json_writing_type(j) is Some))
}

/// Whether `p` is the key a failed read of a ProjectData object names: the
/// first unknown key, else the first unreadable field.
pub open spec fn project_data_error_at(o: Seq<(String, Json)>, p: Seq<char>) -> bool {
    if keys_within(o, seq!["cover", "created-at", "excerpt", "pinterest-url", "playlist-url", "primary", "privacy", "slug", "status", "summary", "title", "unit-count", "unit-type", "user-id", "writing-type"]) {
        project_data_failed_at(o, p)
    } else {
        !is_one_of(p, seq!["cover", "created-at", "excerpt", "pinterest-url", "playlist-url", "primary", "privacy", "slug", "status", "summary", "title", "unit-count", "unit-type", "user-id", "writing-type"])
    }
}

/// Whether a wire object is a readable ProjectData: no unknown key, and every field readable.
pub open spec fn project_data_wire_ok(j: Json) -> bool {
    match j {
        Json::Object(e) => keys_within(e@, seq!["cover", "created-at", "excerpt", "pinterest-url", "playlist-url", "primary", "privacy", "slug", "status", "summary", "title", "unit-count", "unit-type", "user-id", "writing-type"]) && project_data_fields_ok(e@),
        _ => false,
    }
}

impl ProjectData {
    /// Reads the fields from an object's entries; keys of other fields are ignored.
    fn from_fields(o: &Vec<(String, Json)>) -> (r: Result<ProjectData, DecodeError>)
        ensures
            r matches Ok(d) ==> project_data_read_from(o@, d),
            project_data_fields_ok(o@) <==> r is Ok,
            r matches Err(e) ==> e.path@.len() == 1 && project_data_failed_at(o@, e.path@[0]@),
    {
        let cover = opt_field_str(o, "cover")?;
        let created_at = field_timestamp(o, "created-at")?;
        let excerpt = opt_field_str(o, "excerpt")?;
        let pinterest_url = opt_field_str(o, "pinterest-url")?;
        let playlist_url = opt_field_str(o, "playlist-url")?;
        let primary = opt_field_i64(o, "primary")?;
        let privacy = field_privacy_setting(o, "privacy")?;
        let slug = field_str(o, "slug")?;
        let status = field_project_status(o, "status")?;
        let summary = opt_field_str(o, "summary")?;
        let title = field_str(o, "title")?;
        let unit_count = opt_field_u64(o, "unit-count")?;
        let unit_type = field_unit_type(o, "unit-type")?;
        let user_id = field_u64(o, "user-id")?;
        let writing_type = field_writing_type(o, "writing-type")?;
        Ok(ProjectData { cover, created_at, excerpt, pinterest_url, playlist_url, primary, privacy, slug, status, summary, title, unit_count, unit_type, user_id, writing_type })
    }

    /// Appends the fields to an object's entries, in declaration order.
    fn push_fields(&self, e: &mut Vec<(String, Json)>)
        requires
            old(e)@.len() == 0,
        ensures
            project_data_written_as(final(e)@, *self),
    {
        e.push((String::from_str("cover"), opt_str_json(&self.cover)));
        e.push((String::from_str("created-at"), timestamp_json(&self.created_at)));
        e.push((String::from_str("excerpt"), opt_str_json(&self.excerpt)));
        e.push((String::from_str("pinterest-url"), opt_str_json(&self.pinterest_url)));
        e.push((String::from_str("playlist-url"), opt_str_json(&self.playlist_url)));
        e.push((String::from_str("primary"), opt_i64_json(&self.primary)));
        e.push((String::from_str("privacy"), privacy_setting_json(&self.privacy)));
        e.push((String::from_str("slug"), str_json(&self.slug)));
        e.push((String::from_str("status"), project_status_json(&self.status)));
        e.push((String::from_str("summary"), opt_str_json(&self.summary)));
        e.push((String::from_str("title"), str_json(&self.title)));
        e.push((String::from_str("unit-count"), opt_u64_json(&self.unit_count)));
        e.push((String::from_str("unit-type"), unit_type_json(&self.unit_type)));
        e.push((String::from_str("user-id"), u64_json(&self.user_id)));
        e.push((String::from_str("writing-type"), writing_type_json(&self.writing_type)));
    }

    /// Reads an object of this shape; a key outside the schema is refused.
    pub fn from_json(j: &Json) -> (r: Result<ProjectData, DecodeError>)
        ensures
            !(j is Object) ==> r is Err,
            r matches Ok(d) ==> (j matches Json::Object(e) && project_data_read_from(e@, d)),
            project_data_wire_ok(*j) <==> r is Ok,
            r matches Err(e) ==> match *j {
                Json::Object(o) => e.path@.len() == 1 && project_data_error_at(o@, e.path@[0]@),
                _ => e.path@.len() == 0,
            },
            r is Ok ==> (j matches Json::Object(e) && keys_within(e@, seq!["cover", "created-at", "excerpt", "pinterest-url", "playlist-url", "primary", "privacy", "slug", "status", "summary", "title", "unit-count", "unit-type", "user-id", "writing-type"])),
    {
        match j {
            Json::Object(o) => {
                check_keys(o, &vec!["cover", "created-at", "excerpt", "pinterest-url", "playlist-url", "primary", "privacy", "slug", "status", "summary", "title", "unit-count", "unit-type", "user-id", "writing-type"])?;
                ProjectData::from_fields(o)
            },
            _ => Err(not_an_object()),
        }
    }

    /// Writes an object of this shape.
    pub fn to_json(&self) -> (r: Json)
        ensures
            r matches Json::Object(e) && project_data_written_as(e@, *self),
    {
        let mut e: Vec<(String, Json)> = Vec::new();
        self.push_fields(&mut e);
        Json::Object(e)
    }
}

/// The attributes of a writing session: a count added to a project. `where_` is the wire field `where`.
#[derive(Clone, Debug, PartialEq)]
pub struct ProjectSessionData {
    pub count: i64,
    pub created_at: Option<Timestamp>,
    pub end: Option<Timestamp>,
    pub feeling: Option<Feeling>,
    pub how: Option<How>,
    pub project_challenge_id: Option<u64>,
    pub project_id: Option<u64>,
    pub session_date: Option<Date>,
    pub start: Option<Timestamp>,
    pub unit_type: UnitType,
    pub where_: Option<Where>,
}

/// Whether each plain field of `d` is what the entries hold under its key.
pub open spec fn project_session_data_read_from(o: Seq<(String, Json)>, d: ProjectSessionData) -> bool {
    &&& (lookup(o, "count"@) matches Some(j) && json_i64(j) == Some(d.count))
    &&& match d.created_at {
        Some(v) => lookup(o, "created-at"@) matches Some(j) && json_timestamp(j) == Some(v@),
        None => lookup(o, "created-at"@) is None || lookup(o, "created-at"@) == Some(Json::Null),
    }
    &&& match d.end {
        Some(v) => lookup(o, "end"@) matches Some(j) && json_timestamp(j) == Some(v@),
        None => lookup(o, "end"@) is None || lookup(o, "end"@) == Some(Json::Null),
    }
    &&& match d.feeling {
        Some(v) => lookup(o, "feeling"@) matches Some(j) && json_feeling(j) == Some(v),
        None => lookup(o, "feeling"@) is None || lookup(o, "feeling"@) == Some(Json::Null),
    }
    &&& match d.how {
        Some(v) => lookup(o, "how"@) matches Some(j) && json_how(j) == Some(v),
        None => lookup(o, "how"@) is None || lookup(o, "how"@) == Some(Json::Null),
    }
    &&& match d.project_challenge_id {
        Some(v) => lookup(o, "project-challenge-id"@) matches Some(j) && json_u64(j) == Some(v),
        None => lookup(o, "project-challenge-id"@) is None || lookup(o, "project-challenge-id"@) == Some(Json::Null),
    }
    &&& match d.project_id {
        Some(v) => lookup(o, "project-id"@) matches Some(j) && json_u64(j) == Some(v),
        None => lookup(o, "project-id"@) is None || lookup(o, "project-id"@) == Some(Json::Null),
    }
    &&& match d.session_date {
        Some(v) => lookup(o, "session-date"@) matches Some(j) && json_date(j) == Some(v@),
        None => lookup(o, "session-date"@) is None || lookup(o, "session-date"@) == Some(Json::Null),
    }
    &&& match d.start {
        Some(v) => lookup(o, "start"@) matches Some(j) && json_timestamp(j) == Some(v@),
        None => lookup(o, "start"@) is None || lookup(o, "start"@) == Some(Json::Null),
    }
    &&& (lookup(o, "unit-type"@) matches Some(j) && json_unit_type(j) == Some(d.unit_type))
    &&& match d.where_ {
        Some(v) => lookup(o, "where"@) matches Some(j) && json_where(j) == Some(v),
        None => lookup(o, "where"@) is None || lookup(o, "where"@) == Some(Json::Null),
    }
}

/// Whether the entries are the fields of `d`, in order, each under its key in its wire form.
pub open spec fn project_session_data_written_as(e: Seq<(String, Json)>, d: ProjectSessionData) -> bool {
    &&& e.len() == 11
    &&& e[0].0@ == "count"@ && writes_i64(e[0].1, d.count)
    &&& e[1].0@ == "created-at"@ && match d.created_at {
        Some(v) => writes_timestamp(e[1].1, v),
        None => e[1].1 == Json::Null,
    }
    &&& e[2].0@ == "end"@ && match d.end {
        Some(v) => writes_timestamp(e[2].1, v),
        None => e[2].1 == Json::Null,
    }
    &&& e[3].0@ == "feeling"@ && match d.feeling {
        Some(v) => writes_feeling(e[3].1, v),
        None => e[3].1 == Json::Null,
    }
    &&& e[4].0@ == "how"@ && match d.how {
        Some(v) => writes_how(e[4].1, v),
        None => e[4].1 == Json::Null,
    }
    &&& e[5].0@ == "project-challenge-id"@ && match d.project_challenge_id {
        Some(v) => writes_u64(e[5].1, v),
        None => e[5].1 == Json::Null,
    }
    &&& e[6].0@ == "project-id"@ && match d.project_id {
        Some(v) => writes_u64(e[6].1, v),
        None => e[6].1 == Json::Null,
    }
    &&& e[7].0@ == "session-date"@ && match d.session_date {
        Some(v) => writes_date(e[7].1, v),
        None => e[7].1 == Json::Null,
    }
    &&& e[8].0@ == "start"@ && match d.start {
        Some(v) => writes_timestamp(e[8].1, v),
        None => e[8].1 == Json::Null,
    }
    &&& e[9].0@ == "unit-type"@ && writes_unit_type(e[9].1, d.unit_type)
    &&& e[10].0@ == "where"@ && match d.where_ {
        Some(v) => writes_where(e[10].1, v),
        None => e[10].1 == Json::Null,
    }
}

/// Whether every field can be read from the entries.
pub open spec fn project_session_data_fields_ok(o: Seq<(String, Json)>) -> bool {
    &&& (lookup(o, "count"@) matches Some(j) && json_i64(j) is Some)
    &&& match lookup(o, "created-at"@) {
        Some(j) => j is Null || json_timestamp(j) is Some,
        None => true,
    }
    &&& match lookup(o, "end"@) {
        Some(j) => j is Null || json_timestamp(j) is Some,
        None => true,
    }
    &&& match lookup(o, "feeling"@) {
        Some(j) => j is Null || json_feeling(j) is Some,
        None => true,
    }
    &&& match lookup(o, "how"@) {
        Some(j) => j is Null || json_how(j) is Some,
        None => true,
    }
    &&& match lookup(o, "project-challenge-id"@) {
        Some(j) => j is Null || json_u64(j) is Some,
        None => true,
    }
    &&& match lookup(o, "project-id"@) {
        Some(j) => j is Null || json_u64(j) is Some,
        None => true,
    }
    &&& match lookup(o, "session-date"@) {
        Some(j) => j is Null || json_date(j) is Some,
        None => true,
    }
    &&& match lookup(o, "start"@) {
        Some(j) => j is Null || json_timestamp(j) is Some,
        None => true,
    }
    &&& (lookup(o, "unit-type"@) matches Some(j) && json_unit_type(j) is Some)
    &&& match lookup(o, "where"@) {
        Some(j) => j is Null || json_where(j) is Some,
        None => true,
    }
}

/// Whether `p` is the key a failed read of the fields names: the first
/// field, in schema order, that cannot be read.
pub open spec fn project_session_data_failed_at(o: Seq<(String, Json)>, p: Seq<char>) -> bool {
    ||| (p == "count"@ && !(lookup(o, "count"@) matches Some(j) && json_i64(j) is Some))
    ||| ((lookup(o, "count"@) matches Some(j) && json_i64(j) is Some) && p == "created-at"@ && !(match lookup(o, "created-at"@) { Some(j) => j is Null || json_timestamp(j) is Some, None => true }))
    ||| ((lookup(o, "count"@) matches Some(j) && json_i64(j) is Some) && (match lookup(o, "created-at"@) { Some(j) => j is Null || json_timestamp(j) is Some, None => true }) && p == "end"@ && !(match lookup(o, "end"@) { Some(j) => j is Null || json_timestamp(j) is Some, None => true }))
    ||| ((lookup(o, "count"@) matches Some(j) && json_i64(j) is Some) && (match lookup(o, "created-at"@) { Some(j) => j is Null || json_timestamp(j) is Some, None => true }) && (match lookup(o, "end"@) { Some(j) => j is Null || json_timestamp(j) is Some, None => true }) && p == "feeling"@ && !(match lookup(o, "feeling"@) { Some(j) => j is Null || json_feeling(j) is Some, None => true }))
    ||| ((lookup(o, "count"@) matches Some(j) && json_i64(j) is Some) && (match lookup(o, "created-at"@) { Some(j) => j is Null || json_timestamp(j) is Some, None => true }) && (match lookup(o, "end"@) { Some(j) => j is Null || json_timestamp(j) is Some, None => true }) && (match lookup(o, "feeling"@) { Some(j) => j is Null || json_feeling(j) is Some, None => true }) && p == "how"@ && !(match lookup(o, "how"@) { Some(j) => j is Null || json_how(j) is Some, None => true }))
    ||| ((lookup(o, "count"@) matches Some(j) && json_i64(j) is Some) && (match lookup(o, "created-at"@) { Some(j) => j is Null || json_timestamp(j) is Some, None => true }) && (match lookup(o, "end"@) { Some(j) => j is Null || json_timestamp(j) is Some, None => true }) && (match lookup(o, "feeling"@) { Some(j) => j is Null || json_feeling(j) is Some, None => true }) && (match lookup(o, "how"@) { Some(j) => j is Null || json_how(j) is Some, None => true }) && p == "project-challenge-id"@ && !(match lookup(o, "project-challenge-id"@) { Some(j) => j is Null || json_u64(j) is Some, None => true }))
    ||| ((lookup(o, "count"@) matches Some(j) && json_i64(j) is Some) && (match lookup(o, "created-at"@) { Some(j) => j is Null || json_timestamp(j) is Some, None => true }) && (match lookup(o, "end"@) { Some(j) => j is Null || json_timestamp(j) is Some, None => true }) && (match lookup(o, "feeling"@) { Some(j) => j is Null || json_feeling(j) is Some, None => true }) && (match lookup(o, "how"@) { Some(j) => j is Null || json_how(j) is Some, None => true }) && (match lookup(o, "project-challenge-id"@) { Some(j) => j is Null || json_u64(j) is Some, None => true }) && p == "project-id"@ && !(match lookup(o, "project-id"@) { Some(j) => j is Null || json_u64(j) is Some, None => true }))
    ||| ((lookup(o, "count"@) matches Some(j) && json_i64(j) is Some) && (match lookup(o, "created-at"@) { Some(j) => j is Null || json_timestamp(j) is Some, None => true }) && (match lookup(o, "end"@) { Some(j) => j is Null || json_timestamp(j) is Some, None => true }) && (match lookup(o, "feeling"@) { Some(j) => j is Null || json_feeling(j) is Some, None => true }) && (match lookup(o, "how"@) { Some(j) => j is Null || json_how(j) is Some, None => true }) && (match lookup(o, "project-challenge-id"@) { Some(j) => j is Null || json_u64(j) is Some, None => true }) && (match lookup(o, "project-id"@) { Some(j) => j is Null || json_u64(j) is Some, None => true }) && p == "session-date"@ && !(match lookup(o, "session-date"@) { Some(j) => j is Null || json_date(j) is Some, None => true }))
    ||| ((lookup(o, "count"@) matches Some(j) && json_i64(j) is Some) && (match lookup(o, "created-at"@) { Some(j) => j is Null || json_timestamp(j) is Some, None => true }) && (match lookup(o, "end"@) { Some(j) => j is Null || json_timestamp(j) is Some, None => true }) && (match lookup(o, "feeling"@) { Some(j) => j is Null || json_feeling(j) is Some, None => true }) && (match lookup(o, "how"@) { Some(j) => j is Null || json_how(j) is Some, None => true }) && (match lookup(o, "project-challenge-id"@) { Some(j) => j is Null || json_u64(j) is Some, None => true }) && (match lookup(o, "project-id"@) { Some(j) => j is Null || json_u64(j) is Some, None => true }) && (match lookup(o, "session-date"@) { Some(j) => j is Null || json_date(j) is Some, None => true }) && p == "start"@ && !(match lookup(o, "start"@) { Some(j) => j is Null || json_timestamp(j) is Some, None => true }))
    ||| ((lookup(o, "count"@) matches Some(j) && json_i64(j) is Some) && (match lookup(o, "created-at"@) { Some(j) => j is Null || json_timestamp(j) is Some, None => true }) && (match lookup(o, "end"@) { Some(j) => j is Null || json_timestamp(j) is Some, None => true }) && (match lookup(o, "feeling"@) { Some(j) => j is Null || json_feeling(j) is Some, None => true }) && (match lookup(o, "how"@) { Some(j) => j is Null || json_how(j) is Some, None => true }) && (match lookup(o, "project-challenge-id"@) { Some(j) => j is Null || json_u64(j) is Some, None => true }) && (match lookup(o, "project-id"@) { Some(j) => j is Null || json_u64(j) is Some, None => true }) && (match lookup(o, "session-date"@) { Some(j) => j is Null || json_date(j) is Some, None => true }) && (match lookup(o, "start"@) { Some(j) => j is Null || json_timestamp(j) is Some, None => true }) && p == "unit-type"@ && !(lookup(o, "unit-type"@) matches Some(j) && json_unit_type(j) is Some))
    ||| ((lookup(o, "count"@) matches Some(j) && json_i64(j) is Some) && (match lookup(o, "created-at"@) { Some(j) => j is Null || json_timestamp(j) is Some, None => true }) && (match lookup(o, "end"@) { Some(j) => j is Null || json_timestamp(j) is Some, None => true }) && (match lookup(o, "feeling"@) { Some(j) => j is Null || json_feeling(j) is Some, None => true }) && (match lookup(o, "how"@) { Some(j) => j is Null || json_how(j) is Some, None => true }) && (match lookup(o, "project-challenge-id"@) { Some(j) => j is Null || json_u64(j) is Some, None => true }) && (match lookup(o, "project-id"@) { Some(j) => j is Null || json_u64(j) is Some, None => true }) && (match lookup(o, "session-date"@) { Some(j) => j is Null || json_date(j) is Some, None => true }) && (match lookup(o, "start"@) { Some(j) => j is Null || json_timestamp(j) is Some, None => true }) && (lookup(o, "unit-type"@) matches Some(j) && json_unit_type(j) is Some) && p == "where"@ && !(match lookup(o, "where"@) { Some(j) => j is Null || json_where(j) is Some, None => true }))
}

/// Whether `p` is the key a failed read of a ProjectSessionData object names: the
/// first unknown key, else the first unreadable field.
pub open spec fn project_session_data_error_at(o: Seq<(String, Json)>, p: Seq<char>) -> bool {
    if keys_within(o, seq!["count", "created-at", "end", "feeling", "how", "project-challenge-id", "project-id", "session-date", "start", "unit-type", "where"]) {
        project_session_data_failed_at(o, p)
    } else {
        !is_one_of(p, seq!["count", "created-at", "end", "feeling", "how", "project-challenge-id", "project-id", "session-date", "start", "unit-type", "where"])
    }
}

/// Whether a wire object is a readable ProjectSessionData: no unknown key, and every field readable.
pub open spec fn project_session_data_wire_ok(j: Json) -> bool {
    match j {
        Json::Object(e) => keys_within(e@, seq!["count", "created-at", "end", "feeling", "how", "project-challenge-id", "project-id", "session-date", "start", "unit-type", "where"]) && project_session_data_fields_ok(e@),
        _ => false,
    }
}

impl ProjectSessionData {
    /// Reads the fields from an object's entries; keys of other fields are ignored.
    fn from_fields(o: &Vec<(String, Json)>) -> (r: Result<ProjectSessionData, DecodeError>)
        ensures
            r matches Ok(d) ==> project_session_data_read_from(o@, d),
            project_session_data_fields_ok(o@) <==> r is Ok,
            r matches Err(e) ==> e.path@.len() == 1 && project_session_data_failed_at(o@, e.path@[0]@),
    {
        let count = field_i64(o, "count")?;
        let created_at = opt_field_timestamp(o, "created-at")?;
        let end = opt_field_timestamp(o, "end")?;
        let feeling = opt_field_feeling(o, "feeling")?;
        let how = opt_field_how(o, "how")?;
        let project_challenge_id = opt_field_u64(o, "project-challenge-id")?;
        let project_id = opt_field_u64(o, "project-id")?;
        let session_date = opt_field_date(o, "session-date")?;
        let start = opt_field_timestamp(o, "start")?;
        let unit_type = field_unit_type(o, "unit-type")?;
        let where_ = opt_field_where(o, "where")?;
        Ok(ProjectSessionData { count, created_at, end, feeling, how, project_challenge_id, project_id, session_date, start, unit_type, where_ })
    }

    /// Appends the fields to an object's entries, in declaration order.
    fn push_fields(&self, e: &mut Vec<(String, Json)>)
        requires
            old(e)@.len() == 0,
        ensures
            project_session_data_written_as(final(e)@, *self),
    {
        e.push((String::from_str("count"), i64_json(&self.count)));
        e.push((String::from_str("created-at"), opt_timestamp_json(&self.created_at)));
        e.push((String::from_str("end"), opt_timestamp_json(&self.end)));
        e.push((String::from_str("feeling"), opt_feeling_json(&self.feeling)));
        e.push((String::from_str("how"), opt_how_json(&self.how)));
        e.push((String::from_str("project-challenge-id"), opt_u64_json(&self.project_challenge_id)));
        e.push((String::from_str("project-id"), opt_u64_json(&self.project_id)));
        e.push((String::from_str("session-date"), opt_date_json(&self.session_date)));
        e.push((String::from_str("start"), opt_timestamp_json(&self.start)));
        e.push((String::from_str("unit-type"), unit_type_json(&self.unit_type)));
        e.push((String::from_str("where"), opt_where_json(&self.where_)));
    }

    /// Reads an object of this shape; a key outside the schema is refused.
    pub fn from_json(j: &Json) -> (r: Result<ProjectSessionData, DecodeError>)
        ensures
            !(j is Object) ==> r is Err,
            r matches Ok(d) ==> (j matches Json::Object(e) && project_session_data_read_from(e@, d)),
            project_session_data_wire_ok(*j) <==> r is Ok,
            r matches Err(e) ==> match *j {
                Json::Object(o) => e.path@.len() == 1 && project_session_data_error_at(o@, e.path@[0]@),
                _ => e.path@.len() == 0,
            },
            r is Ok ==> (j matches Json::Object(e) && keys_within(e@, seq!["count", "created-at", "end", "feeling", "how", "project-challenge-id", "project-id", "session-date", "start", "unit-type", "where"])),
    {
        match j {
            Json::Object(o) => {
                check_keys(o, &vec!["count", "created-at", "end", "feeling", "how", "project-challenge-id", "project-id", "session-date", "start", "unit-type", "where"])?;
                ProjectSessionData::from_fields(o)
            },
            _ => Err(not_an_object()),
        }
    }

    /// Writes an object of this shape.
    pub fn to_json(&self) -> (r: Json)
        ensures
            r matches Json::Object(e) && project_session_data_written_as(e@, *self),
    {
        let mut e: Vec<(String, Json)> = Vec::new();
        self.push_fields(&mut e);
        Json::Object(e)
    }
}

/// The attributes of a stopwatch.
#[derive(Clone, Debug, PartialEq)]
pub struct StopWatchData {
    pub start: Timestamp,
    pub stop: Option<Timestamp>,
}

/// Whether each plain field of `d` is what the entries hold under its key.
pub open spec fn stop_watch_data_read_from(o: Seq<(String, Json)>, d: StopWatchData) -> bool {
    &&& (lookup(o, "start"@) matches Some(j) && json_timestamp(j) == Some(d.start@))
    &&& match d.stop {
        Some(v) => lookup(o, "stop"@) matches Some(j) && json_timestamp(j) == Some(v@),
        None => lookup(o, "stop"@) is None || lookup(o, "stop"@) == Some(Json::Null),
    }
}

/// Whether the entries are the fields of `d`, in order, each under its key in its wire form.
pub open spec fn stop_watch_data_written_as(e: Seq<(String, Json)>, d: StopWatchData) -> bool {
    &&& e.len() == 2
    &&& e[0].0@ == "start"@ && writes_timestamp(e[0].1, d.start)
    &&& e[1].0@ == "stop"@ && match d.stop {
        Some(v) => writes_timestamp(e[1].1, v),
        None => e[1].1 == Json::Null,
    }
}

/// Whether every field can be read from the entries.
pub open spec fn stop_watch_data_fields_ok(o: Seq<(String, Json)>) -> bool {
    &&& (lookup(o, "start"@) matches Some(j) && json_timestamp(j) is Some)
    &&& match lookup(o, "stop"@) {
        Some(j) => j is Null || json_timestamp(j) is Some,
        None => true,
    }
}

/// Whether `p` is the key a failed read of the fields names: the first
/// field, in schema order, that cannot be read.
pub open spec fn stop_watch_data_failed_at(o: Seq<(String, Json)>, p: Seq<char>) -> bool {
    ||| (p == "start"@ && !(lookup(o, "start"@) matches Some(j) && json_timestamp(j) is Some))
    ||| ((lookup(o, "start"@) matches Some(j) && json_timestamp(j) is Some) && p == "stop"@ && !(match lookup(o, "stop"@) { Some(j) => j is Null || json_timestamp(j) is Some, None => true }))
}

/// Whether `p` is the key a failed read of a StopWatchData object names: the
/// first unknown key, else the first unreadable field.
pub open spec fn stop_watch_data_error_at(o: Seq<(String, Json)>, p: Seq<char>) -> bool {
    if keys_within(o, seq!["start", "stop"]) {
        stop_watch_data_failed_at(o, p)
    } else {
        !is_one_of(p, seq!["start", "stop"])
    }
}

/// Whether a wire object is a readable StopWatchData: no unknown key, and every field readable.
pub open spec fn stop_watch_data_wire_ok(j: Json) -> bool {
    match j {
        Json::Object(e) => keys_within(e@, seq!["start", "stop"]) && stop_watch_data_fields_ok(e@),
        _ => false,
    }
}

impl StopWatchData {
    /// Reads the fields from an object's entries; keys of other fields are ignored.
    fn from_fields(o: &Vec<(String, Json)>) -> (r: Result<StopWatchData, DecodeError>)
        ensures
            r matches Ok(d) ==> stop_watch_data_read_from(o@, d),
            stop_watch_data_fields_ok(o@) <==> r is Ok,
            r matches Err(e) ==> e.path@.len() == 1 && stop_watch_data_failed_at(o@, e.path@[0]@),
    {
        let start = field_timestamp(o, "start")?;
        let stop = opt_field_timestamp(o, "stop")?;
        Ok(StopWatchData { start, stop })
    }

    /// Appends the fields to an object's entries, in declaration order.
    fn push_fields(&self, e: &mut Vec<(String, Json)>)
        requires
            old(e)@.len() == 0,
        ensures
            stop_watch_data_written_as(final(e)@, *self),
    {
        e.push((String::from_str("start"), timestamp_json(&self.start)));
        e.push((String::from_str("stop"), opt_timestamp_json(&self.stop)));
    }

    /// Reads an object of this shape; a key outside the schema is refused.
    pub fn from_json(j: &Json) -> (r: Result<StopWatchData, DecodeError>)
        ensures
            !(j is Object) ==> r is Err,
            r matches Ok(d) ==> (j matches Json::Object(e) && stop_watch_data_read_from(e@, d)),
            stop_watch_data_wire_ok(*j) <==> r is Ok,
            r matches Err(e) ==> match *j {
                Json::Object(o) => e.path@.len() == 1 && stop_watch_data_error_at(o@, e.path@[0]@),
                _ => e.path@.len() == 0,
            },
            r is Ok ==> (j matches Json::Object(e) && keys_within(e@, seq!["start", "stop"])),
    {
        match j {
            Json::Object(o) => {
                check_keys(o, &vec!["start", "stop"])?;
                StopWatchData::from_fields(o)
            },
            _ => Err(not_an_object()),
        }
    }

    /// Writes an object of this shape.
    pub fn to_json(&self) -> (r: Json)
        ensures
            r matches Json::Object(e) && stop_watch_data_written_as(e@, *self),
    {
        let mut e: Vec<(String, Json)> = Vec::new();
        self.push_fields(&mut e);
        Json::Object(e)
    }
}

/// The attributes of a timer; its duration is a count of minutes on the wire.
#[derive(Clone, Debug, PartialEq)]
pub struct TimerData {
    pub cancelled: bool,
    pub duration: Minutes,
    pub start: Timestamp,
}

/// Whether each plain field of `d` is what the entries hold under its key.
pub open spec fn timer_data_read_from(o: Seq<(String, Json)>, d: TimerData) -> bool {
    &&& (lookup(o, "cancelled"@) matches Some(j) && json_bool(j) == Some(d.cancelled))
    &&& (lookup(o, "duration"@) matches Some(j) && json_minutes(j) == Some(d.duration.minutes))
    &&& (lookup(o, "start"@) matches Some(j) && json_timestamp(j) == Some(d.start@))
}

/// Whether the entries are the fields of `d`, in order, each under its key in its wire form.
pub open spec fn timer_data_written_as(e: Seq<(String, Json)>, d: TimerData) -> bool {
    &&& e.len() == 3
    &&& e[0].0@ == "cancelled"@ && writes_bool(e[0].1, d.cancelled)
    &&& e[1].0@ == "duration"@ && writes_minutes(e[1].1, d.duration)
    &&& e[2].0@ == "start"@ && writes_timestamp(e[2].1, d.start)
}

/// Whether every field can be read from the entries.
pub open spec fn timer_data_fields_ok(o: Seq<(String, Json)>) -> bool {
    &&& (lookup(o, "cancelled"@) matches Some(j) && json_bool(j) is Some)
    &&& (lookup(o, "duration"@) matches Some(j) && json_minutes(j) is Some)
    &&& (lookup(o, "start"@) matches Some(j) && json_timestamp(j) is Some)
}

/// Whether `p` is the key a failed read of the fields names: the first
/// field, in schema order, that cannot be read.
pub open spec fn timer_data_failed_at(o: Seq<(String, Json)>, p: Seq<char>) -> bool {
    ||| (p == "cancelled"@ && !(lookup(o, "cancelled"@) matches Some(j) && json_bool(j) is Some))
    ||| ((lookup(o, "cancelled"@) matches Some(j) && json_bool(j) is Some) && p == "duration"@ && !(lookup(o, "duration"@) matches Some(j) && json_minutes(j) is Some))
    ||| ((lookup(o, "cancelled"@) matches Some(j) && json_bool(j) is Some) && (lookup(o, "duration"@) matches Some(j) && json_minutes(j) is Some) && p == "start"@ && !(lookup(o, "start"@) matches Some(j) && json_timestamp(j) is Some))
}

/// Whether `p` is the key a failed read of a TimerData object names: the
/// first unknown key, else the first unreadable field.
pub open spec fn timer_data_error_at(o: Seq<(String, Json)>, p: Seq<char>) -> bool {
    if keys_within(o, seq!["cancelled", "duration", "start"]) {
        timer_data_failed_at(o, p)
    } else {
        !is_one_of(p, seq!["cancelled", "duration", "start"])
    }
}

/// Whether a wire object is a readable TimerData: no unknown key, and every field readable.
pub open spec fn timer_data_wire_ok(j: Json) -> bool {
    match j {
        Json::Object(e) => keys_within(e@, seq!["cancelled", "duration", "start"]) && timer_data_fields_ok(e@),
        _ => false,
    }
}

impl TimerData {
    /// Reads the fields from an object's entries; keys of other fields are ignored.
    fn from_fields(o: &Vec<(String, Json)>) -> (r: Result<TimerData, DecodeError>)
        ensures
            r matches Ok(d) ==> timer_data_read_from(o@, d),
            timer_data_fields_ok(o@) <==> r is Ok,
            r matches Err(e) ==> e.path@.len() == 1 && timer_data_failed_at(o@, e.path@[0]@),
    {
        let cancelled = field_bool(o, "cancelled")?;
        let duration = field_minutes(o, "duration")?;
        let start = field_timestamp(o, "start")?;
        Ok(TimerData { cancelled, duration, start })
    }

    /// Appends the fields to an object's entries, in declaration order.
    fn push_fields(&self, e: &mut Vec<(String, Json)>)
        requires
            old(e)@.len() == 0,
        ensures
            timer_data_written_as(final(e)@, *self),
    {
        e.push((String::from_str("cancelled"), bool_json(&self.cancelled)));
        e.push((String::from_str("duration"), minutes_json(&self.duration)));
        e.push((String::from_str("start"), timestamp_json(&self.start)));
    }

    /// Reads an object of this shape; a key outside the schema is refused.
    pub fn from_json(j: &Json) -> (r: Result<TimerData, DecodeError>)
        ensures
            !(j is Object) ==> r is Err,
            r matches Ok(d) ==> (j matches Json::Object(e) && timer_data_read_from(e@, d)),
            timer_data_wire_ok(*j) <==> r is Ok,
            r matches Err(e) ==> match *j {
                Json::Object(o) => e.path@.len() == 1 && timer_data_error_at(o@, e.path@[0]@),
                _ => e.path@.len() == 0,
            },
            r is Ok ==> (j matches Json::Object(e) && keys_within(e@, seq!["cancelled", "duration", "start"])),
    {
        match j {
            Json::Object(o) => {
                check_keys(o, &vec!["cancelled", "duration", "start"])?;
                TimerData::from_fields(o)
            },
            _ => Err(not_an_object()),
        }
    }

    /// Writes an object of this shape.
    pub fn to_json(&self) -> (r: Json)
        ensures
            r matches Json::Object(e) && timer_data_written_as(e@, *self),
    {
        let mut e: Vec<(String, Json)> = Vec::new();
        self.push_fields(&mut e);
        Json::Object(e)
    }
}

/// The attributes of a user. The settings groups and the statistics sit flat among the other keys on the wire, each key prefixed by its group. The meaning of the two `setting_session_*` fields is not known.
#[derive(Clone, Debug, PartialEq)]
pub struct UserData {
    pub admin_level: AdminLevel,
    pub avatar: Option<String>,
    pub bio: Option<String>,
    pub confirmed_at: Timestamp,
    pub created_at: Timestamp,
    pub discourse_username: Option<String>,
    pub email: Option<String>,
    pub email_settings: Option<EmailSettings>,
    pub halo: bool,
    pub laurels: u64,
    pub location: Option<String>,
    pub name: String,
    pub notification_settings: Option<NotificationSettings>,
    pub notifications_viewed_at: Timestamp,
    pub plate: Option<String>,
    pub postal_code: Option<u64>,
    pub privacy_settings: Option<PrivacySettings>,
    pub registration_path: RegistrationPath,
    pub setting_session_count_by_session: u8,
    pub setting_session_more_info: bool,
    pub slug: String,
    pub stats: StatsInfo,
    pub time_zone: String,
}

/// Whether each plain field of `d` is what the entries hold under its key.
pub open spec fn user_data_read_from(o: Seq<(String, Json)>, d: UserData) -> bool {
    &&& (lookup(o, "admin-level"@) matches Some(j) && json_admin_level(j) == Some(d.admin_level))
    &&& match d.avatar {
        Some(v) => lookup(o, "avatar"@) matches Some(j) && json_str(j) == Some(v@),
        None => lookup(o, "avatar"@) is None || lookup(o, "avatar"@) == Some(Json::Null),
    }
    &&& match d.bio {
        Some(v) => lookup(o, "bio"@) matches Some(j) && json_str(j) == Some(v@),
        None => lookup(o, "bio"@) is None || lookup(o, "bio"@) == Some(Json::Null),
    }
    &&& (lookup(o, "confirmed-at"@) matches Some(j) && json_timestamp(j) == Some(d.confirmed_at@))
    &&& (lookup(o, "created-at"@) matches Some(j) && json_timestamp(j) == Some(d.created_at@))
    &&& match d.discourse_username {
        Some(v) => lookup(o, "discourse-username"@) matches Some(j) && json_str(j) == Some(v@),
        None => lookup(o, "discourse-username"@) is None || lookup(o, "discourse-username"@) == Some(Json::Null),
    }
    &&& match d.email {
        Some(v) => lookup(o, "email"@) matches Some(j) && json_str(j) == Some(v@),
        None => lookup(o, "email"@) is None || lookup(o, "email"@) == Some(Json::Null),
    }
    &&& (lookup(o, "halo"@) matches Some(j) && json_bool(j) == Some(d.halo))
    &&& (lookup(o, "laurels"@) matches Some(j) && json_u64(j) == Some(d.laurels))
    &&& match d.location {
        Some(v) => lookup(o, "location"@) matches Some(j) && json_str(j) == Some(v@),
        None => lookup(o, "location"@) is None || lookup(o, "location"@) == Some(Json::Null),
    }
    &&& (lookup(o, "name"@) matches Some(j) && json_str(j) == Some(d.name@))
    &&& (lookup(o, "notifications-viewed-at"@) matches Some(j) && json_timestamp(j) == Some(d.notifications_viewed_at@))
    &&& match d.plate {
        Some(v) => lookup(o, "plate"@) matches Some(j) && json_str(j) == Some(v@),
        None => lookup(o, "plate"@) is None || lookup(o, "plate"@) == Some(Json::Null),
    }
    &&& (lookup(o, "registration-path"@) matches Some(j) && json_registration_path(j) == Some(d.registration_path))
    &&& (lookup(o, "setting-session-count-by-session"@) matches Some(j) && json_u8(j) == Some(d.setting_session_count_by_session))
    &&& (lookup(o, "setting-session-more-info"@) matches Some(j) && json_bool(j) == Some(d.setting_session_more_info))
    &&& (lookup(o, "slug"@) matches Some(j) && json_str(j) == Some(d.slug@))
    &&& (lookup(o, "time-zone"@) matches Some(j) && json_str(j) == Some(d.time_zone@))
}

/// Whether every field can be read from the entries.
pub open spec fn user_data_fields_ok(o: Seq<(String, Json)>) -> bool {
    &&& (lookup(o, "admin-level"@) matches Some(j) && json_admin_level(j) is Some)
    &&& match lookup(o, "avatar"@) {
        Some(j) => j is Null || json_str(j) is Some,
        None => true,
    }
    &&& match lookup(o, "bio"@) {
        Some(j) => j is Null || json_str(j) is Some,
        None => true,
    }
    &&& (lookup(o, "confirmed-at"@) matches Some(j) && json_timestamp(j) is Some)
    &&& (lookup(o, "created-at"@) matches Some(j) && json_timestamp(j) is Some)
    &&& match lookup(o, "discourse-username"@) {
        Some(j) => j is Null || json_str(j) is Some,
        None => true,
    }
    &&& match lookup(o, "email"@) {
        Some(j) => j is Null || json_str(j) is Some,
        None => true,
    }
    &&& (lookup(o, "halo"@) matches Some(j) && json_bool(j) is Some)
    &&& (lookup(o, "laurels"@) matches Some(j) && json_u64(j) is Some)
    &&& match lookup(o, "location"@) {
        Some(j) => j is Null || json_str(j) is Some,
        None => true,
    }
    &&& (lookup(o, "name"@) matches Some(j) && json_str(j) is Some)
    &&& (lookup(o, "notifications-viewed-at"@) matches Some(j) && json_timestamp(j) is Some)
    &&& match lookup(o, "plate"@) {
        Some(j) => j is Null || json_str(j) is Some,
        None => true,
    }
    &&& lookup(o, "postal-code"@) is Some
    &&& (lookup(o, "registration-path"@) matches Some(j) && json_registration_path(j) is Some)
    &&& (lookup(o, "setting-session-count-by-session"@) matches Some(j) && json_u8(j) is Some)
    &&& (lookup(o, "setting-session-more-info"@) matches Some(j) && json_bool(j) is Some)
    &&& (lookup(o, "slug"@) matches Some(j) && json_str(j) is Some)
    &&& stats_info_fields_ok(o)
    &&& (lookup(o, "time-zone"@) matches Some(j) && json_str(j) is Some)
}

/// Whether a wire object is a readable UserData: every field readable.
pub open spec fn user_data_wire_ok(j: Json) -> bool {
    match j {
        Json::Object(e) => user_data_fields_ok(e@),
        _ => false,
    }
}

impl UserData {
    /// Reads the fields from an object's entries; keys of other fields are ignored.
    fn from_fields(o: &Vec<(String, Json)>) -> (r: Result<UserData, DecodeError>)
        ensures
            r matches Ok(d) ==> user_data_read_from(o@, d),
            user_data_fields_ok(o@) <==> r is Ok,
    {
        let admin_level = field_admin_level(o, "admin-level")?;
        let avatar = opt_field_str(o, "avatar")?;
        let bio = opt_field_str(o, "bio")?;
        let confirmed_at = field_timestamp(o, "confirmed-at")?;
        let created_at = field_timestamp(o, "created-at")?;
        let discourse_username = opt_field_str(o, "discourse-username")?;
        let email = opt_field_str(o, "email")?;
        let email_settings = match EmailSettings::from_fields(o) {
            Ok(x) => Some(x),
            Err(_) => None,
        };
        let halo = field_bool(o, "halo")?;
        let laurels = field_u64(o, "laurels")?;
        let location = opt_field_str(o, "location")?;
        let name = field_str(o, "name")?;
        let notification_settings = match NotificationSettings::from_fields(o) {
            Ok(x) => Some(x),
            Err(_) => None,
        };
        let notifications_viewed_at = field_timestamp(o, "notifications-viewed-at")?;
        let plate = opt_field_str(o, "plate")?;
        let postal_code = field_lenient_u64(o, "postal-code")?;
        let privacy_settings = match PrivacySettings::from_fields(o) {
            Ok(x) => Some(x),
            Err(_) => None,
        };
        let registration_path = field_registration_path(o, "registration-path")?;
        let setting_session_count_by_session = field_u8(o, "setting-session-count-by-session")?;
        let setting_session_more_info = field_bool(o, "setting-session-more-info")?;
        let slug = field_str(o, "slug")?;
        let stats = StatsInfo::from_fields(o)?;
        let time_zone = field_str(o, "time-zone")?;
        Ok(UserData { admin_level, avatar, bio, confirmed_at, created_at, discourse_username, email, email_settings, halo, laurels, location, name, notification_settings, notifications_viewed_at, plate, postal_code, privacy_settings, registration_path, setting_session_count_by_session, setting_session_more_info, slug, stats, time_zone })
    }

    /// Appends the fields to an object's entries, in declaration order.
    fn push_fields(&self, e: &mut Vec<(String, Json)>) {
        e.push((String::from_str("admin-level"), admin_level_json(&self.admin_level)));
        e.push((String::from_str("avatar"), opt_str_json(&self.avatar)));
        e.push((String::from_str("bio"), opt_str_json(&self.bio)));
        e.push((String::from_str("confirmed-at"), timestamp_json(&self.confirmed_at)));
        e.push((String::from_str("created-at"), timestamp_json(&self.created_at)));
        e.push((String::from_str("discourse-username"), opt_str_json(&self.discourse_username)));
        e.push((String::from_str("email"), opt_str_json(&self.email)));
        match &self.email_settings {
            Some(x) => x.push_fields(e),
            None => {},
        }
        e.push((String::from_str("halo"), bool_json(&self.halo)));
        e.push((String::from_str("laurels"), u64_json(&self.laurels)));
        e.push((String::from_str("location"), opt_str_json(&self.location)));
        e.push((String::from_str("name"), str_json(&self.name)));
        match &self.notification_settings {
            Some(x) => x.push_fields(e),
            None => {},
        }
        e.push((String::from_str("notifications-viewed-at"), timestamp_json(&self.notifications_viewed_at)));
        e.push((String::from_str("plate"), opt_str_json(&self.plate)));
        e.push((String::from_str("postal-code"), opt_str_u64_json(&self.postal_code)));
        match &self.privacy_settings {
            Some(x) => x.push_fields(e),
            None => {},
        }
        e.push((String::from_str("registration-path"), registration_path_json(&self.registration_path)));
        e.push((String::from_str("setting-session-count-by-session"), u8_json(&self.setting_session_count_by_session)));
        e.push((String::from_str("setting-session-more-info"), bool_json(&self.setting_session_more_info)));
        e.push((String::from_str("slug"), str_json(&self.slug)));
        self.stats.push_fields(e);
        e.push((String::from_str("time-zone"), str_json(&self.time_zone)));
    }

    /// Reads an object of this shape; keys outside the schema are ignored.
    pub fn from_json(j: &Json) -> (r: Result<UserData, DecodeError>)
        ensures
            !(j is Object) ==> r is Err,
            r matches Ok(d) ==> (j matches Json::Object(e) && user_data_read_from(e@, d)),
            user_data_wire_ok(*j) <==> r is Ok,
    {
        match j {
            Json::Object(o) => {
                UserData::from_fields(o)
            },
            _ => Err(not_an_object()),
        }
    }

    /// Writes an object of this shape.
    pub fn to_json(&self) -> (r: Json)
        ensures
            r is Object,
    {
        let mut e: Vec<(String, Json)> = Vec::new();
        self.push_fields(&mut e);
        Json::Object(e)
    }
}

/// The attributes of a place one writes in.
#[derive(Clone, Debug, PartialEq)]
pub struct WritingLocationData {
    pub name: String,
}

/// Whether each plain field of `d` is what the entries hold under its key.
pub open spec fn writing_location_data_read_from(o: Seq<(String, Json)>, d: WritingLocationData) -> bool {
    &&& (lookup(o, "name"@) matches Some(j) && json_str(j) == Some(d.name@))
}

/// Whether the entries are the fields of `d`, in order, each under its key in its wire form.
pub open spec fn writing_location_data_written_as(e: Seq<(String, Json)>, d: WritingLocationData) -> bool {
    &&& e.len() == 1
    &&& e[0].0@ == "name"@ && writes_str(e[0].1, d.name)
}

/// Whether every field can be read from the entries.
pub open spec fn writing_location_data_fields_ok(o: Seq<(String, Json)>) -> bool {
    &&& (lookup(o, "name"@) matches Some(j) && json_str(j) is Some)
}

/// Whether `p` is the key a failed read of the fields names: the first
/// field, in schema order, that cannot be read.
pub open spec fn writing_location_data_failed_at(o: Seq<(String, Json)>, p: Seq<char>) -> bool {
    ||| (p == "name"@ && !(lookup(o, "name"@) matches Some(j) && json_str(j) is Some))
}

/// Whether `p` is the key a failed read of a WritingLocationData object names: the
/// Whether `p` is the key a failed read of a WritingLocationData object names: the first unreadable field.
pub open spec fn writing_location_data_error_at(o: Seq<(String, Json)>, p: Seq<char>) -> bool {
    writing_location_data_failed_at(o, p)
}

/// Whether a wire object is a readable WritingLocationData: every field readable.
pub open spec fn writing_location_data_wire_ok(j: Json) -> bool {
    match j {
        Json::Object(e) => writing_location_data_fields_ok(e@),
        _ => false,
    }
}

impl WritingLocationData {
    /// Reads the fields from an object's entries; keys of other fields are ignored.
    fn from_fields(o: &Vec<(String, Json)>) -> (r: Result<WritingLocationData, DecodeError>)
        ensures
            r matches Ok(d) ==> writing_location_data_read_from(o@, d),
            writing_location_data_fields_ok(o@) <==> r is Ok,
            r matches Err(e) ==> e.path@.len() == 1 && writing_location_data_failed_at(o@, e.path@[0]@),
    {
        let name = field_str(o, "name")?;
        Ok(WritingLocationData { name })
    }

    /// Appends the fields to an object's entries, in declaration order.
    fn push_fields(&self, e: &mut Vec<(String, Json)>)
        requires
            old(e)@.len() == 0,
        ensures
            writing_location_data_written_as(final(e)@, *self),
    {
        e.push((String::from_str("name"), str_json(&self.name)));
    }

    /// Reads an object of this shape; keys outside the schema are ignored.
    pub fn from_json(j: &Json) -> (r: Result<WritingLocationData, DecodeError>)
        ensures
            !(j is Object) ==> r is Err,
            r matches Ok(d) ==> (j matches Json::Object(e) && writing_location_data_read_from(e@, d)),
            writing_location_data_wire_ok(*j) <==> r is Ok,
            r matches Err(e) ==> match *j {
                Json::Object(o) => e.path@.len() == 1 && writing_location_data_error_at(o@, e.path@[0]@),
                _ => e.path@.len() == 0,
            },
    {
        match j {
            Json::Object(o) => {
                WritingLocationData::from_fields(o)
            },
            _ => Err(not_an_object()),
        }
    }

    /// Writes an object of this shape.
    pub fn to_json(&self) -> (r: Json)
        ensures
            r matches Json::Object(e) && writing_location_data_written_as(e@, *self),
    {
        let mut e: Vec<(String, Json)> = Vec::new();
        self.push_fields(&mut e);
        Json::Object(e)
    }
}

/// The attributes of a way one writes.
#[derive(Clone, Debug, PartialEq)]
pub struct WritingMethodData {
    pub name: String,
}

/// Whether each plain field of `d` is what the entries hold under its key.
pub open spec fn writing_method_data_read_from(o: Seq<(String, Json)>, d: WritingMethodData) -> bool {
    &&& (lookup(o, "name"@) matches Some(j) && json_str(j) == Some(d.name@))
}

/// Whether the entries are the fields of `d`, in order, each under its key in its wire form.
pub open spec fn writing_method_data_written_as(e: Seq<(String, Json)>, d: WritingMethodData) -> bool {
    &&& e.len() == 1
    &&& e[0].0@ == "name"@ && writes_str(e[0].1, d.name)
}

/// Whether every field can be read from the entries.
pub open spec fn writing_method_data_fields_ok(o: Seq<(String, Json)>) -> bool {
    &&& (lookup(o, "name"@) matches Some(j) && json_str(j) is Some)
}

/// Whether `p` is the key a failed read of the fields names: the first
/// field, in schema order, that cannot be read.
pub open spec fn writing_method_data_failed_at(o: Seq<(String, Json)>, p: Seq<char>) -> bool {
    ||| (p == "name"@ && !(lookup(o, "name"@) matches Some(j) && json_str(j) is Some))
}

/// Whether `p` is the key a failed read of a WritingMethodData object names: the
/// Whether `p` is the key a failed read of a WritingMethodData object names: the first unreadable field.
pub open spec fn writing_method_data_error_at(o: Seq<(String, Json)>, p: Seq<char>) -> bool {
    writing_method_data_failed_at(o, p)
}

/// Whether a wire object is a readable WritingMethodData: every field readable.
pub open spec fn writing_method_data_wire_ok(j: Json) -> bool {
    match j {
        Json::Object(e) => writing_method_data_fields_ok(e@),
        _ => false,
    }
}

impl WritingMethodData {
    /// Reads the fields from an object's entries; keys of other fields are ignored.
    fn from_fields(o: &Vec<(String, Json)>) -> (r: Result<WritingMethodData, DecodeError>)
        ensures
            r matches Ok(d) ==> writing_method_data_read_from(o@, d),
            writing_method_data_fields_ok(o@) <==> r is Ok,
            r matches Err(e) ==> e.path@.len() == 1 && writing_method_data_failed_at(o@, e.path@[0]@),
    {
        let name = field_str(o, "name")?;
        Ok(WritingMethodData { name })
    }

    /// Appends the fields to an object's entries, in declaration order.
    fn push_fields(&self, e: &mut Vec<(String, Json)>)
        requires
            old(e)@.len() == 0,
        ensures
            writing_method_data_written_as(final(e)@, *self),
    {
        e.push((String::from_str("name"), str_json(&self.name)));
    }

    /// Reads an object of this shape; keys outside the schema are ignored.
    pub fn from_json(j: &Json) -> (r: Result<WritingMethodData, DecodeError>)
        ensures
            !(j is Object) ==> r is Err,
            r matches Ok(d) ==> (j matches Json::Object(e) && writing_method_data_read_from(e@, d)),
            writing_method_data_wire_ok(*j) <==> r is Ok,
            r matches Err(e) ==> match *j {
                Json::Object(o) => e.path@.len() == 1 && writing_method_data_error_at(o@, e.path@[0]@),
                _ => e.path@.len() == 0,
            },
    {
        match j {
            Json::Object(o) => {
                WritingMethodData::from_fields(o)
            },
            _ => Err(not_an_object()),
        }
    }

    /// Writes an object of this shape.
    pub fn to_json(&self) -> (r: Json)
        ensures
            r matches Json::Object(e) && writing_method_data_written_as(e@, *self),
    {
        let mut e: Vec<(String, Json)> = Vec::new();
        self.push_fields(&mut e);
        Json::Object(e)
    }
}

/// The attributes of a user's membership of a group. `exit_method` is free text.
#[derive(Clone, Debug, PartialEq)]
pub struct GroupUserData {
    pub created_at: Timestamp,
    pub entry_at: Option<Timestamp>,
    pub entry_method: EntryMethod,
    pub exit_at: Option<Timestamp>,
    pub exit_method: Option<String>,
    pub group_code_id: Option<u64>,
    pub group_id: u64,
    pub group_type: GroupType,
    pub invitation_accepted: InvitationStatus,
    pub invited_by_id: Option<u64>,
    pub is_admin: Option<bool>,
    pub latest_message: Option<String>,
    pub num_unread_messages: u64,
    pub primary: u64,
    pub updated_at: Timestamp,
    pub user_id: u64,
}

/// Whether each plain field of `d` is what the entries hold under its key.
pub open spec fn group_user_data_read_from(o: Seq<(String, Json)>, d: GroupUserData) -> bool {
    &&& (lookup(o, "created-at"@) matches Some(j) && json_timestamp(j) == Some(d.created_at@))
    &&& match d.entry_at {
        Some(v) => lookup(o, "entry-at"@) matches Some(j) && json_timestamp(j) == Some(v@),
        None => lookup(o, "entry-at"@) is None || lookup(o, "entry-at"@) == Some(Json::Null),
    }
    &&& (lookup(o, "entry-method"@) matches Some(j) && json_entry_method(j) == Some(d.entry_method))
    &&& match d.exit_at {
        Some(v) => lookup(o, "exit-at"@) matches Some(j) && json_timestamp(j) == Some(v@),
        None => lookup(o, "exit-at"@) is None || lookup(o, "exit-at"@) == Some(Json::Null),
    }
    &&& match d.exit_method {
        Some(v) => lookup(o, "exit-method"@) matches Some(j) && json_str(j) == Some(v@),
        None => lookup(o, "exit-method"@) is None || lookup(o, "exit-method"@) == Some(Json::Null),
    }
    &&& match d.group_code_id {
        Some(v) => lookup(o, "group-code-id"@) matches Some(j) && json_u64(j) == Some(v),
        None => lookup(o, "group-code-id"@) is None || lookup(o, "group-code-id"@) == Some(Json::Null),
    }
    &&& (lookup(o, "group-id"@) matches Some(j) && json_u64(j) == Some(d.group_id))
    &&& (lookup(o, "group-type"@) matches Some(j) && json_group_type(j) == Some(d.group_type))
    &&& (lookup(o, "invitation-accepted"@) matches Some(j) && json_invitation_status(j) == Some(d.invitation_accepted))
    &&& match d.invited_by_id {
        Some(v) => lookup(o, "invited-by-id"@) matches Some(j) && json_u64(j) == Some(v),
        None => lookup(o, "invited-by-id"@) is None || lookup(o, "invited-by-id"@) == Some(Json::Null),
    }
    &&& match d.is_admin {
        Some(v) => lookup(o, "is-admin"@) matches Some(j) && json_bool(j) == Some(v),
        None => lookup(o, "is-admin"@) is None || lookup(o, "is-admin"@) == Some(Json::Null),
    }
    &&& match d.latest_message {
        Some(v) => lookup(o, "latest-message"@) matches Some(j) && json_str(j) == Some(v@),
        None => lookup(o, "latest-message"@) is None || lookup(o, "latest-message"@) == Some(Json::Null),
    }
    &&& (lookup(o, "num-unread-messages"@) matches Some(j) && json_u64(j) == Some(d.num_unread_messages))
    &&& (lookup(o, "primary"@) matches Some(j) && json_u64(j) == Some(d.primary))
    &&& (lookup(o, "updated-at"@) matches Some(j) && json_timestamp(j) == Some(d.updated_at@))
    &&& (lookup(o, "user-id"@) matches Some(j) && json_u64(j) == Some(d.user_id))
}

/// Whether the entries are the fields of `d`, in order, each under its key in its wire form.
pub open spec fn group_user_data_written_as(e: Seq<(String, Json)>, d: GroupUserData) -> bool {
    &&& e.len() == 16
    &&& e[0].0@ == "created-at"@ && writes_timestamp(e[0].1, d.created_at)
    &&& e[1].0@ == "entry-at"@ && match d.entry_at {
        Some(v) => writes_timestamp(e[1].1, v),
        None => e[1].1 == Json::Null,
    }
    &&& e[2].0@ == "entry-method"@ && writes_entry_method(e[2].1, d.entry_method)
    &&& e[3].0@ == "exit-at"@ && match d.exit_at {
        Some(v) => writes_timestamp(e[3].1, v),
        None => e[3].1 == Json::Null,
    }
    &&& e[4].0@ == "exit-method"@ && match d.exit_method {
        Some(v) => writes_str(e[4].1, v),
        None => e[4].1 == Json::Null,
    }
    &&& e[5].0@ == "group-code-id"@ && match d.group_code_id {
        Some(v) => writes_u64(e[5].1, v),
        None => e[5].1 == Json::Null,
    }
    &&& e[6].0@ == "group-id"@ && writes_u64(e[6].1, d.group_id)
    &&& e[7].0@ == "group-type"@ && writes_group_type(e[7].1, d.group_type)
    &&& e[8].0@ == "invitation-accepted"@ && writes_invitation_status(e[8].1, d.invitation_accepted)
    &&& e[9].0@ == "invited-by-id"@ && match d.invited_by_id {
        Some(v) => writes_u64(e[9].1, v),
        None => e[9].1 == Json::Null,
    }
    &&& e[10].0@ == "is-admin"@ && match d.is_admin {
        Some(v) => writes_bool(e[10].1, v),
        None => e[10].1 == Json::Null,
    }
    &&& e[11].0@ == "latest-message"@ && match d.latest_message {
        Some(v) => writes_str(e[11].1, v),
        None => e[11].1 == Json::Null,
    }
    &&& e[12].0@ == "num-unread-messages"@ && writes_u64(e[12].1, d.num_unread_messages)
    &&& e[13].0@ == "primary"@ && writes_u64(e[13].1, d.primary)
    &&& e[14].0@ == "updated-at"@ && writes_timestamp(e[14].1, d.updated_at)
    &&& e[15].0@ == "user-id"@ && writes_u64(e[15].1, d.user_id)
}

/// Whether every field can be read from the entries.
pub open spec fn group_user_data_fields_ok(o: Seq<(String, Json)>) -> bool {
    &&& (lookup(o, "created-at"@) matches Some(j) && json_timestamp(j) is Some)
    &&& match lookup(o, "entry-at"@) {
        Some(j) => j is Null || json_timestamp(j) is Some,
        None => true,
    }
    &&& (lookup(o, "entry-method"@) matches Some(j) && json_entry_method(j) is Some)
    &&& match lookup(o, "exit-at"@) {
        Some(j) => j is Null || json_timestamp(j) is Some,
        None => true,
    }
    &&& match lookup(o, "exit-method"@) {
        Some(j) => j is Null || json_str(j) is Some,
        None => true,
    }
    &&& match lookup(o, "group-code-id"@) {
        Some(j) => j is Null || json_u64(j) is Some,
        None => true,
    }
    &&& (lookup(o, "group-id"@) matches Some(j) && json_u64(j) is Some)
    &&& (lookup(o, "group-type"@) matches Some(j) && json_group_type(j) is Some)
    &&& (lookup(o, "invitation-accepted"@) matches Some(j) && json_invitation_status(j) is Some)
    &&& match lookup(o, "invited-by-id"@) {
        Some(j) => j is Null || json_u64(j) is Some,
        None => true,
    }
    &&& match lookup(o, "is-admin"@) {
        Some(j) => j is Null || json_bool(j) is Some,
        None => true,
    }
    &&& match lookup(o, "latest-message"@) {
        Some(j) => j is Null || json_str(j) is Some,
        None => true,
    }
    &&& (lookup(o, "num-unread-messages"@) matches Some(j) && json_u64(j) is Some)
    &&& (lookup(o, "primary"@) matches Some(j) && json_u64(j) is Some)
    &&& (lookup(o, "updated-at"@) matches Some(j) && json_timestamp(j) is Some)
    &&& (lookup(o, "user-id"@) matches Some(j) && json_u64(j) is Some)
}

/// Whether `p` is the key a failed read of the fields names: the first
/// field, in schema order, that cannot be read.
pub open spec fn group_user_data_failed_at(o: Seq<(String, Json)>, p: Seq<char>) -> bool {
    ||| (p == "created-at"@ && !(lookup(o, "created-at"@) matches Some(j) && json_timestamp(j) is Some))
    ||| ((lookup(o, "created-at"@) matches Some(j) && json_timestamp(j) is Some) && p == "entry-at"@ && !(match lookup(o, "entry-at"@) { Some(j) => j is Null || json_timestamp(j) is Some, None => true }))
    ||| ((lookup(o, "created-at"@) matches Some(j) && json_timestamp(j) is Some) && (match lookup(o, "entry-at"@) { Some(j) => j is Null || json_timestamp(j) is Some, None => true }) && p == "entry-method"@ && !(lookup(o, "entry-method"@) matches Some(j) && json_entry_method(j) is Some))
    ||| ((lookup(o, "created-at"@) matches Some(j) && json_timestamp(j) is Some) && (match lookup(o, "entry-at"@) { Some(j) => j is Null || json_timestamp(j) is Some, None => true }) && (lookup(o, "entry-method"@) matches Some(j) && json_entry_method(j) is Some) && p == "exit-at"@ && !(match lookup(o, "exit-at"@) { Some(j) => j is Null || json_timestamp(j) is Some, None => true }))
    ||| ((lookup(o, "created-at"@) matches Some(j) && json_timestamp(j) is Some) && (match lookup(o, "entry-at"@) { Some(j) => j is Null || json_timestamp(j) is Some, None => true }) && (lookup(o, "entry-method"@) matches Some(j) && json_entry_method(j) is Some) && (match lookup(o, "exit-at"@) { Some(j) => j is Null || json_timestamp(j) is Some, None => true }) && p == "exit-method"@ && !(match lookup(o, "exit-method"@) { Some(j) => j is Null || json_str(j) is Some, None => true }))
    ||| ((lookup(o, "created-at"@) matches Some(j) && json_timestamp(j) is Some) && (match lookup(o, "entry-at"@) { Some(j) => j is Null || json_timestamp(j) is Some, None => true }) && (lookup(o, "entry-method"@) matches Some(j) && json_entry_method(j) is Some) && (match lookup(o, "exit-at"@) { Some(j) => j is Null || json_timestamp(j) is Some, None => true }) && (match lookup(o, "exit-method"@) { Some(j) => j is Null || json_str(j) is Some, None => true }) && p == "group-code-id"@ && !(match lookup(o, "group-code-id"@) { Some(j) => j is Null || json_u64(j) is Some, None => true }))
    ||| ((lookup(o, "created-at"@) matches Some(j) && json_timestamp(j) is Some) && (match lookup(o, "entry-at"@) { Some(j) => j is Null || json_timestamp(j) is Some, None => true }) && (lookup(o, "entry-method"@) matches Some(j) && json_entry_method(j) is Some) && (match lookup(o, "exit-at"@) { Some(j) => j is Null || json_timestamp(j) is Some, None => true }) && (match lookup(o, "exit-method"@) { Some(j) => j is Null || json_str(j) is Some, None => true }) && (match lookup(o, "group-code-id"@) { Some(j) => j is Null || json_u64(j) is Some, None => true }) && p == "group-id"@ && !(lookup(o, "group-id"@) matches Some(j) && json_u64(j) is Some))
    ||| ((lookup(o, "created-at"@) matches Some(j) && json_timestamp(j) is Some) && (match lookup(o, "entry-at"@) { Some(j) => j is Null || json_timestamp(j) is Some, None => true }) && (lookup(o, "entry-method"@) matches Some(j) && json_entry_method(j) is Some) && (match lookup(o, "exit-at"@) { Some(j) => j is Null || json_timestamp(j) is Some, None => true }) && (match lookup(o, "exit-method"@) { Some(j) => j is Null || json_str(j) is Some, None => true }) && (match lookup(o, "group-code-id"@) { Some(j) => j is Null || json_u64(j) is Some, None => true }) && (lookup(o, "group-id"@) matches Some(j) && json_u64(j) is Some) && p == "group-type"@ && !(lookup(o, "group-type"@) matches Some(j) && json_group_type(j) is Some))
    ||| ((lookup(o, "created-at"@) matches Some(j) && json_timestamp(j) is Some) && (match lookup(o, "entry-at"@) { Some(j) => j is Null || json_timestamp(j) is Some, None => true }) && (lookup(o, "entry-method"@) matches Some(j) && json_entry_method(j) is Some) && (match lookup(o, "exit-at"@) { Some(j) => j is Null || json_timestamp(j) is Some, None => true }) && (match lookup(o, "exit-method"@) { Some(j) => j is Null || json_str(j) is Some, None => true }) && (match lookup(o, "group-code-id"@) { Some(j) => j is Null || json_u64(j) is Some, None => true }) && (lookup(o, "group-id"@) matches Some(j) && json_u64(j) is Some) && (lookup(o, "group-type"@) matches Some(j) && json_group_type(j) is Some) && p == "invitation-accepted"@ && !(lookup(o, "invitation-accepted"@) matches Some(j) && json_invitation_status(j) is Some))
    ||| ((lookup(o, "created-at"@) matches Some(j) && json_timestamp(j) is Some) && (match lookup(o, "entry-at"@) { Some(j) => j is Null || json_timestamp(j) is Some, None => true }) && (lookup(o, "entry-method"@) matches Some(j) && json_entry_method(j) is Some) && (match lookup(o, "exit-at"@) { Some(j) => j is Null || json_timestamp(j) is Some, None => true }) && (match lookup(o, "exit-method"@) { Some(j) => j is Null || json_str(j) is Some, None => true }) && (match lookup(o, "group-code-id"@) { Some(j) => j is Null || json_u64(j) is Some, None => true }) && (lookup(o, "group-id"@) matches Some(j) && json_u64(j) is Some) && (lookup(o, "group-type"@) matches Some(j) && json_group_type(j) is Some) && (lookup(o, "invitation-accepted"@) matches Some(j) && json_invitation_status(j) is Some) && p == "invited-by-id"@ && !(match lookup(o, "invited-by-id"@) { Some(j) => j is Null || json_u64(j) is Some, None => true }))
    ||| ((lookup(o, "created-at"@) matches Some(j) && json_timestamp(j) is Some) && (match lookup(o, "entry-at"@) { Some(j) => j is Null || json_timestamp(j) is Some, None => true }) && (lookup(o, "entry-method"@) matches Some(j) && json_entry_method(j) is Some) && (match lookup(o, "exit-at"@) { Some(j) => j is Null || json_timestamp(j) is Some, None => true }) && (match lookup(o, "exit-method"@) { Some(j) => j is Null || json_str(j) is Some, None => true }) && (match lookup(o, "group-code-id"@) { Some(j) => j is Null || json_u64(j) is Some, None => true }) && (lookup(o, "group-id"@) matches Some(j) && json_u64(j) is Some) && (lookup(o, "group-type"@) matches Some(j) && json_group_type(j) is Some) && (lookup(o, "invitation-accepted"@) matches Some(j) && json_invitation_status(j) is Some) && (match lookup(o, "invited-by-id"@) { Some(j) => j is Null || json_u64(j) is Some, None => true }) && p == "is-admin"@ && !(match lookup(o, "is-admin"@) { Some(j) => j is Null || json_bool(j) is Some, None => true }))
    ||| ((lookup(o, "created-at"@) matches Some(j) && json_timestamp(j) is Some) && (match lookup(o, "entry-at"@) { Some(j) => j is Null || json_timestamp(j) is Some, None => true }) && (lookup(o, "entry-method"@) matches Some(j) && json_entry_method(j) is Some) && (match lookup(o, "exit-at"@) { Some(j) => j is Null || json_timestamp(j) is Some, None => true }) && (match lookup(o, "exit-method"@) { Some(j) => j is Null || json_str(j) is Some, None => true }) && (match lookup(o, "group-code-id"@) { Some(j) => j is Null || json_u64(j) is Some, None => true }) && (lookup(o, "group-id"@) matches Some(j) && json_u64(j) is Some) && (lookup(o, "group-type"@) matches Some(j) && json_group_type(j) is Some) && (lookup(o, "invitation-accepted"@) matches Some(j) && json_invitation_status(j) is Some) && (match lookup(o, "invited-by-id"@) { Some(j) => j is Null || json_u64(j) is Some, None => true }) && (match lookup(o, "is-admin"@) { Some(j) => j is Null || json_bool(j) is Some, None => true }) && p == "latest-message"@ && !(match lookup(o, "latest-message"@) { Some(j) => j is Null || json_str(j) is Some, None => true }))
    ||| ((lookup(o, "created-at"@) matches Some(j) && json_timestamp(j) is Some) && (match lookup(o, "entry-at"@) { Some(j) => j is Null || json_timestamp(j) is Some, None => true }) && (lookup(o, "entry-method"@) matches Some(j) && json_entry_method(j) is Some) && (match lookup(o, "exit-at"@) { Some(j) => j is Null || json_timestamp(j) is Some, None => true }) && (match lookup(o, "exit-method"@) { Some(j) => j is Null || json_str(j) is Some, None => true }) && (match lookup(o, "group-code-id"@) { Some(j) => j is Null || json_u64(j) is Some, None => true }) && (lookup(o, "group-id"@) matches Some(j) && json_u64(j) is Some) && (lookup(o, "group-type"@) matches Some(j) && json_group_type(j) is Some) && (lookup(o, "invitation-accepted"@) matches Some(j) && json_invitation_status(j) is Some) && (match lookup(o, "invited-by-id"@) { Some(j) => j is Null || json_u64(j) is Some, None => true }) && (match lookup(o, "is-admin"@) { Some(j) => j is Null || json_bool(j) is Some, None => true }) && (match lookup(o, "latest-message"@) { Some(j) => j is Null || json_str(j) is Some, None => true }) && p == "num-unread-messages"@ && !(lookup(o, "num-unread-messages"@) matches Some(j) && json_u64(j) is Some))
    ||| ((lookup(o, "created-at"@) matches Some(j) && json_timestamp(j) is Some) && (match lookup(o, "entry-at"@) { Some(j) => j is Null || json_timestamp(j) is Some, None => true }) && (lookup(o, "entry-method"@) matches Some(j) && json_entry_method(j) is Some) && (match lookup(o, "exit-at"@) { Some(j) => j is Null || json_timestamp(j) is Some, None => true }) && (match lookup(o, "exit-method"@) { Some(j) => j is Null || json_str(j) is Some, None => true }) && (match lookup(o, "group-code-id"@) { Some(j) => j is Null || json_u64(j) is Some, None => true }) && (lookup(o, "group-id"@) matches Some(j) && json_u64(j) is Some) && (lookup(o, "group-type"@) matches Some(j) && json_group_type(j) is Some) && (lookup(o, "invitation-accepted"@) matches Some(j) && json_invitation_status(j) is Some) && (match lookup(o, "invited-by-id"@) { Some(j) => j is Null || json_u64(j) is Some, None => true }) && (match lookup(o, "is-admin"@) { Some(j) => j is Null || json_bool(j) is Some, None => true }) && (match lookup(o, "latest-message"@) { Some(j) => j is Null || json_str(j) is Some, None => true }) && (lookup(o, "num-unread-messages"@) matches Some(j) && json_u64(j) is Some) && p == "primary"@ && !(lookup(o, "primary"@) matches Some(j) && json_u64(j) is Some))
    ||| ((lookup(o, "created-at"@) matches Some(j) && json_timestamp(j) is Some) && (match lookup(o, "entry-at"@) { Some(j) => j is Null || json_timestamp(j) is Some, None => true }) && (lookup(o, "entry-method"@) matches Some(j) && json_entry_method(j) is Some) && (match lookup(o, "exit-at"@) { Some(j) => j is Null || json_timestamp(j) is Some, None => true }) && (match lookup(o, "exit-method"@) { Some(j) => j is Null || json_str(j) is Some, None => true }) && (match lookup(o, "group-code-id"@) { Some(j) => j is Null || json_u64(j) is Some, None => true }) && (lookup(o, "group-id"@) matches Some(j) && json_u64(j) is Some) && (lookup(o, "group-type"@) matches Some(j) && json_group_type(j) is Some) && (lookup(o, "invitation-accepted"@) matches Some(j) && json_invitation_status(j) is Some) && (match lookup(o, "invited-by-id"@) { Some(j) => j is Null || json_u64(j) is Some, None => true }) && (match lookup(o, "is-admin"@) { Some(j) => j is Null || json_bool(j) is Some, None => true }) && (match lookup(o, "latest-message"@) { Some(j) => j is Null || json_str(j) is Some, None => true }) && (lookup(o, "num-unread-messages"@) matches Some(j) && json_u64(j) is Some) && (lookup(o, "primary"@) matches Some(j) && json_u64(j) is Some) && p == "updated-at"@ && !(lookup(o, "updated-at"@) matches Some(j) && json_timestamp(j) is Some))
    ||| ((lookup(o, "created-at"@) matches Some(j) && json_timestamp(j) is Some) && (match lookup(o, "entry-at"@) { Some(j) => j is Null || json_timestamp(j) is Some, None => true }) && (lookup(o, "entry-method"@) matches Some(j) && json_entry_method(j) is Some) && (match lookup(o, "exit-at"@) { Some(j) => j is Null || json_timestamp(j) is Some, None => true }) && (match lookup(o, "exit-method"@) { Some(j) => j is Null || json_str(j) is Some, None => true }) && (match lookup(o, "group-code-id"@) { Some(j) => j is Null || json_u64(j) is Some, None => true }) && (lookup(o, "group-id"@) matches Some(j) && json_u64(j) is Some) && (lookup(o, "group-type"@) matches Some(j) && json_group_type(j) is Some) && (lookup(o, "invitation-accepted"@) matches Some(j) && json_invitation_status(j) is Some) && (match lookup(o, "invited-by-id"@) { Some(j) => j is Null || json_u64(j) is Some, None => true }) && (match lookup(o, "is-admin"@) { Some(j) => j is Null || json_bool(j) is Some, None => true }) && (match lookup(o, "latest-message"@) { Some(j) => j is Null || json_str(j) is Some, None => true }) && (lookup(o, "num-unread-messages"@) matches Some(j) && json_u64(j) is Some) && (lookup(o, "primary"@) matches Some(j) && json_u64(j) is Some) && (lookup(o, "updated-at"@) matches Some(j) && json_timestamp(j) is Some) && p == "user-id"@ && !(lookup(o, "user-id"@) matches Some(j) && json_u64(j) is Some))
}

/// Whether `p` is the key a failed read of a GroupUserData object names: the
/// first unknown key, else the first unreadable field.
pub open spec fn group_user_data_error_at(o: Seq<(String, Json)>, p: Seq<char>) -> bool {
    if keys_within(o, seq!["created-at", "entry-at", "entry-method", "exit-at", "exit-method", "group-code-id", "group-id", "group-type", "invitation-accepted", "invited-by-id", "is-admin", "latest-message", "num-unread-messages", "primary", "updated-at", "user-id"]) {
        group_user_data_failed_at(o, p)
    } else {
        !is_one_of(p, seq!["created-at", "entry-at", "entry-method", "exit-at", "exit-method", "group-code-id", "group-id", "group-type", "invitation-accepted", "invited-by-id", "is-admin", "latest-message", "num-unread-messages", "primary", "updated-at", "user-id"])
    }
}

/// Whether a wire object is a readable GroupUserData: no unknown key, and every field readable.
pub open spec fn group_user_data_wire_ok(j: Json) -> bool {
    match j {
        Json::Object(e) => keys_within(e@, seq!["created-at", "entry-at", "entry-method", "exit-at", "exit-method", "group-code-id", "group-id", "group-type", "invitation-accepted", "invited-by-id", "is-admin", "latest-message", "num-unread-messages", "primary", "updated-at", "user-id"]) && group_user_data_fields_ok(e@),
        _ => false,
    }
}

impl GroupUserData {
    /// Reads the fields from an object's entries; keys of other fields are ignored.
    fn from_fields(o: &Vec<(String, Json)>) -> (r: Result<GroupUserData, DecodeError>)
        ensures
            r matches Ok(d) ==> group_user_data_read_from(o@, d),
            group_user_data_fields_ok(o@) <==> r is Ok,
            r matches Err(e) ==> e.path@.len() == 1 && group_user_data_failed_at(o@, e.path@[0]@),
    {
        let created_at = field_timestamp(o, "created-at")?;
        let entry_at = opt_field_timestamp(o, "entry-at")?;
        let entry_method = field_entry_method(o, "entry-method")?;
        let exit_at = opt_field_timestamp(o, "exit-at")?;
        let exit_method = opt_field_str(o, "exit-method")?;
        let group_code_id = opt_field_u64(o, "group-code-id")?;
        let group_id = field_u64(o, "group-id")?;
        let group_type = field_group_type(o, "group-type")?;
        let invitation_accepted = field_invitation_status(o, "invitation-accepted")?;
        let invited_by_id = opt_field_u64(o, "invited-by-id")?;
        let is_admin = opt_field_bool(o, "is-admin")?;
        let latest_message = opt_field_str(o, "latest-message")?;
        let num_unread_messages = field_u64(o, "num-unread-messages")?;
        let primary = field_u64(o, "primary")?;
        let updated_at = field_timestamp(o, "updated-at")?;
        let user_id = field_u64(o, "user-id")?;
        Ok(GroupUserData { created_at, entry_at, entry_method, exit_at, exit_method, group_code_id, group_id, group_type, invitation_accepted, invited_by_id, is_admin, latest_message, num_unread_messages, primary, updated_at, user_id })
    }

    /// Appends the fields to an object's entries, in declaration order.
    fn push_fields(&self, e: &mut Vec<(String, Json)>)
        requires
            old(e)@.len() == 0,
        ensures
            group_user_data_written_as(final(e)@, *self),
    {
        e.push((String::from_str("created-at"), timestamp_json(&self.created_at)));
        e.push((String::from_str("entry-at"), opt_timestamp_json(&self.entry_at)));
        e.push((String::from_str("entry-method"), entry_method_json(&self.entry_method)));
        e.push((String::from_str("exit-at"), opt_timestamp_json(&self.exit_at)));
        e.push((String::from_str("exit-method"), opt_str_json(&self.exit_method)));
        e.push((String::from_str("group-code-id"), opt_u64_json(&self.group_code_id)));
        e.push((String::from_str("group-id"), u64_json(&self.group_id)));
        e.push((String::from_str("group-type"), group_type_json(&self.group_type)));
        e.push((String::from_str("invitation-accepted"), invitation_status_json(&self.invitation_accepted)));
        e.push((String::from_str("invited-by-id"), opt_u64_json(&self.invited_by_id)));
        e.push((String::from_str("is-admin"), opt_bool_json(&self.is_admin)));
        e.push((String::from_str("latest-message"), opt_str_json(&self.latest_message)));
        e.push((String::from_str("num-unread-messages"), u64_json(&self.num_unread_messages)));
        e.push((String::from_str("primary"), u64_json(&self.primary)));
        e.push((String::from_str("updated-at"), timestamp_json(&self.updated_at)));
        e.push((String::from_str("user-id"), u64_json(&self.user_id)));
    }

    /// Reads an object of this shape; a key outside the schema is refused.
    pub fn from_json(j: &Json) -> (r: Result<GroupUserData, DecodeError>)
        ensures
            !(j is Object) ==> r is Err,
            r matches Ok(d) ==> (j matches Json::Object(e) && group_user_data_read_from(e@, d)),
            group_user_data_wire_ok(*j) <==> r is Ok,
            r matches Err(e) ==> match *j {
                Json::Object(o) => e.path@.len() == 1 && group_user_data_error_at(o@, e.path@[0]@),
                _ => e.path@.len() == 0,
            },
            r is Ok ==> (j matches Json::Object(e) && keys_within(e@, seq!["created-at", "entry-at", "entry-method", "exit-at", "exit-method", "group-code-id", "group-id", "group-type", "invitation-accepted", "invited-by-id", "is-admin", "latest-message", "num-unread-messages", "primary", "updated-at", "user-id"])),
    {
        match j {
            Json::Object(o) => {
                check_keys(o, &vec!["created-at", "entry-at", "entry-method", "exit-at", "exit-method", "group-code-id", "group-id", "group-type", "invitation-accepted", "invited-by-id", "is-admin", "latest-message", "num-unread-messages", "primary", "updated-at", "user-id"])?;
                GroupUserData::from_fields(o)
            },
            _ => Err(not_an_object()),
        }
    }

    /// Writes an object of this shape.
    pub fn to_json(&self) -> (r: Json)
        ensures
            r matches Json::Object(e) && group_user_data_written_as(e@, *self),
    {
        let mut e: Vec<(String, Json)> = Vec::new();
        self.push_fields(&mut e);
        Json::Object(e)
    }
}

/// The attributes of the tie between a place and a group.
#[derive(Clone, Debug, PartialEq)]
pub struct LocationGroupData {
    pub group_id: u64,
    pub location_id: u64,
    pub primary: bool,
}

/// Whether each plain field of `d` is what the entries hold under its key.
pub open spec fn location_group_data_read_from(o: Seq<(String, Json)>, d: LocationGroupData) -> bool {
    &&& (lookup(o, "group-id"@) matches Some(j) && json_u64(j) == Some(d.group_id))
    &&& (lookup(o, "location-id"@) matches Some(j) && json_u64(j) == Some(d.location_id))
    &&& (lookup(o, "primary"@) matches Some(j) && json_bool(j) == Some(d.primary))
}

/// Whether the entries are the fields of `d`, in order, each under its key in its wire form.
pub open spec fn location_group_data_written_as(e: Seq<(String, Json)>, d: LocationGroupData) -> bool {
    &&& e.len() == 3
    &&& e[0].0@ == "group-id"@ && writes_u64(e[0].1, d.group_id)
    &&& e[1].0@ == "location-id"@ && writes_u64(e[1].1, d.location_id)
    &&& e[2].0@ == "primary"@ && writes_bool(e[2].1, d.primary)
}

/// Whether every field can be read from the entries.
pub open spec fn location_group_data_fields_ok(o: Seq<(String, Json)>) -> bool {
    &&& (lookup(o, "group-id"@) matches Some(j) && json_u64(j) is Some)
    &&& (lookup(o, "location-id"@) matches Some(j) && json_u64(j) is Some)
    &&& (lookup(o, "primary"@) matches Some(j) && json_bool(j) is Some)
}

/// Whether `p` is the key a failed read of the fields names: the first
/// field, in schema order, that cannot be read.
pub open spec fn location_group_data_failed_at(o: Seq<(String, Json)>, p: Seq<char>) -> bool {
    ||| (p == "group-id"@ && !(lookup(o, "group-id"@) matches Some(j) && json_u64(j) is Some))
    ||| ((lookup(o, "group-id"@) matches Some(j) && json_u64(j) is Some) && p == "location-id"@ && !(lookup(o, "location-id"@) matches Some(j) && json_u64(j) is Some))
    ||| ((lookup(o, "group-id"@) matches Some(j) && json_u64(j) is Some) && (lookup(o, "location-id"@) matches Some(j) && json_u64(j) is Some) && p == "primary"@ && !(lookup(o, "primary"@) matches Some(j) && json_bool(j) is Some))
}

/// Whether `p` is the key a failed read of a LocationGroupData object names: the
/// first unknown key, else the first unreadable field.
pub open spec fn location_group_data_error_at(o: Seq<(String, Json)>, p: Seq<char>) -> bool {
    if keys_within(o, seq!["group-id", "location-id", "primary"]) {
        location_group_data_failed_at(o, p)
    } else {
        !is_one_of(p, seq!["group-id", "location-id", "primary"])
    }
}

/// Whether a wire object is a readable LocationGroupData: no unknown key, and every field readable.
pub open spec fn location_group_data_wire_ok(j: Json) -> bool {
    match j {
        Json::Object(e) => keys_within(e@, seq!["group-id", "location-id", "primary"]) && location_group_data_fields_ok(e@),
        _ => false,
    }
}

impl LocationGroupData {
    /// Reads the fields from an object's entries; keys of other fields are ignored.
    fn from_fields(o: &Vec<(String, Json)>) -> (r: Result<LocationGroupData, DecodeError>)
        ensures
            r matches Ok(d) ==> location_group_data_read_from(o@, d),
            location_group_data_fields_ok(o@) <==> r is Ok,
            r matches Err(e) ==> e.path@.len() == 1 && location_group_data_failed_at(o@, e.path@[0]@),
    {
        let group_id = field_u64(o, "group-id")?;
        let location_id = field_u64(o, "location-id")?;
        let primary = field_bool(o, "primary")?;
        Ok(LocationGroupData { group_id, location_id, primary })
    }

    /// Appends the fields to an object's entries, in declaration order.
    fn push_fields(&self, e: &mut Vec<(String, Json)>)
        requires
            old(e)@.len() == 0,
        ensures
            location_group_data_written_as(final(e)@, *self),
    {
        e.push((String::from_str("group-id"), u64_json(&self.group_id)));
        e.push((String::from_str("location-id"), u64_json(&self.location_id)));
        e.push((String::from_str("primary"), bool_json(&self.primary)));
    }

    /// Reads an object of this shape; a key outside the schema is refused.
    pub fn from_json(j: &Json) -> (r: Result<LocationGroupData, DecodeError>)
        ensures
            !(j is Object) ==> r is Err,
            r matches Ok(d) ==> (j matches Json::Object(e) && location_group_data_read_from(e@, d)),
            location_group_data_wire_ok(*j) <==> r is Ok,
            r matches Err(e) ==> match *j {
                Json::Object(o) => e.path@.len() == 1 && location_group_data_error_at(o@, e.path@[0]@),
                _ => e.path@.len() == 0,
            },
            r is Ok ==> (j matches Json::Object(e) && keys_within(e@, seq!["group-id", "location-id", "primary"])),
    {
        match j {
            Json::Object(o) => {
                check_keys(o, &vec!["group-id", "location-id", "primary"])?;
                LocationGroupData::from_fields(o)
            },
            _ => Err(not_an_object()),
        }
    }

    /// Writes an object of this shape.
    pub fn to_json(&self) -> (r: Json)
        ensures
            r matches Json::Object(e) && location_group_data_written_as(e@, *self),
    {
        let mut e: Vec<(String, Json)> = Vec::new();
        self.push_fields(&mut e);
        Json::Object(e)
    }
}

/// The attributes of the tie between a project and a challenge it takes part in. The meaning of `speed`, `when` and `writing_location` is not known.
#[derive(Clone, Debug, PartialEq)]
pub struct ProjectChallengeData {
    pub challenge_id: u64,
    pub current_count: u64,
    pub ends_at: Date,
    pub event_type: EventType,
    pub feeling: Option<Feeling>,
    pub goal: u64,
    pub how: Option<How>,
    pub last_recompute: Option<Timestamp>,
    pub name: String,
    pub project_id: u64,
    pub speed: Option<u64>,
    pub start_count: Option<u64>,
    pub starts_at: Date,
    pub streak: Option<u64>,
    pub unit_type: UnitType,
    pub user_id: u64,
    pub when: Option<u64>,
    pub won_at: Option<Timestamp>,
    pub writing_location: Option<String>,
    pub writing_type: Option<WritingType>,
}

/// Whether each plain field of `d` is what the entries hold under its key.
pub open spec fn project_challenge_data_read_from(o: Seq<(String, Json)>, d: ProjectChallengeData) -> bool {
    &&& (lookup(o, "challenge-id"@) matches Some(j) && json_u64(j) == Some(d.challenge_id))
    &&& (lookup(o, "current-count"@) matches Some(j) && json_u64(j) == Some(d.current_count))
    &&& (lookup(o, "ends-at"@) matches Some(j) && json_date(j) == Some(d.ends_at@))
    &&& (lookup(o, "event-type"@) matches Some(j) && json_event_type(j) == Some(d.event_type))
    &&& match d.feeling {
        Some(v) => lookup(o, "feeling"@) matches Some(j) && json_feeling(j) == Some(v),
        None => lookup(o, "feeling"@) is None || lookup(o, "feeling"@) == Some(Json::Null),
    }
    &&& (lookup(o, "goal"@) matches Some(j) && json_u64(j) == Some(d.goal))
    &&& match d.how {
        Some(v) => lookup(o, "how"@) matches Some(j) && json_how(j) == Some(v),
        None => lookup(o, "how"@) is None || lookup(o, "how"@) == Some(Json::Null),
    }
    &&& match d.last_recompute {
        Some(v) => lookup(o, "last-recompute"@) matches Some(j) && json_timestamp(j) == Some(v@),
        None => lookup(o, "last-recompute"@) is None || lookup(o, "last-recompute"@) == Some(Json::Null),
    }
    &&& (lookup(o, "name"@) matches Some(j) && json_str(j) == Some(d.name@))
    &&& (lookup(o, "project-id"@) matches Some(j) && json_u64(j) == Some(d.project_id))
    &&& match d.speed {
        Some(v) => lookup(o, "speed"@) matches Some(j) && json_u64(j) == Some(v),
        None => lookup(o, "speed"@) is None || lookup(o, "speed"@) == Some(Json::Null),
    }
    &&& match d.start_count {
        Some(v) => lookup(o, "start-count"@) matches Some(j) && json_u64(j) == Some(v),
        None => lookup(o, "start-count"@) is None || lookup(o, "start-count"@) == Some(Json::Null),
    }
    &&& (lookup(o, "starts-at"@) matches Some(j) && json_date(j) == Some(d.starts_at@))
    &&& match d.streak {
        Some(v) => lookup(o, "streak"@) matches Some(j) && json_u64(j) == Some(v),
        None => lookup(o, "streak"@) is None || lookup(o, "streak"@) == Some(Json::Null),
    }
    &&& (lookup(o, "unit-type"@) matches Some(j) && json_unit_type(j) == Some(d.unit_type))
    &&& (lookup(o, "user-id"@) matches Some(j) && json_u64(j) == Some(d.user_id))
    &&& match d.when {
        Some(v) => lookup(o, "when"@) matches Some(j) && json_u64(j) == Some(v),
        None => lookup(o, "when"@) is None || lookup(o, "when"@) == Some(Json::Null),
    }
    &&& match d.won_at {
        Some(v) => lookup(o, "won-at"@) matches Some(j) && json_timestamp(j) == Some(v@),
        None => lookup(o, "won-at"@) is None || lookup(o, "won-at"@) == Some(Json::Null),
    }
    &&& match d.writing_location {
        Some(v) => lookup(o, "writing-location"@) matches Some(j) && json_str(j) == Some(v@),
        None => lookup(o, "writing-location"@) is None || lookup(o, "writing-location"@) == Some(Json::Null),
    }
    &&& match d.writing_type {
        Some(v) => lookup(o, "writing-type"@) matches Some(j) && json_writing_type(j) == Some(v),
        None => lookup(o, "writing-type"@) is None || lookup(o, "writing-type"@) == Some(Json::Null),
    }
}

/// Whether the entries are the fields of `d`, in order, each under its key in its wire form.
pub open spec fn project_challenge_data_written_as(e: Seq<(String, Json)>, d: ProjectChallengeData) -> bool {
    &&& e.len() == 20
    &&& e[0].0@ == "challenge-id"@ && writes_u64(e[0].1, d.challenge_id)
    &&& e[1].0@ == "current-count"@ && writes_u64(e[1].1, d.current_count)
    &&& e[2].0@ == "ends-at"@ && writes_date(e[2].1, d.ends_at)
    &&& e[3].0@ == "event-type"@ && writes_event_type(e[3].1, d.event_type)
    &&& e[4].0@ == "feeling"@ && match d.feeling {
        Some(v) => writes_feeling(e[4].1, v),
        None => e[4].1 == Json::Null,
    }
    &&& e[5].0@ == "goal"@ && writes_u64(e[5].1, d.goal)
    &&& e[6].0@ == "how"@ && match d.how {
        Some(v) => writes_how(e[6].1, v),
        None => e[6].1 == Json::Null,
    }
    &&& e[7].0@ == "last-recompute"@ && match d.last_recompute {
        Some(v) => writes_timestamp(e[7].1, v),
        None => e[7].1 == Json::Null,
    }
    &&& e[8].0@ == "name"@ && writes_str(e[8].1, d.name)
    &&& e[9].0@ == "project-id"@ && writes_u64(e[9].1, d.project_id)
    &&& e[10].0@ == "speed"@ && match d.speed {
        Some(v) => writes_u64(e[10].1, v),
        None => e[10].1 == Json::Null,
    }
    &&& e[11].0@ == "start-count"@ && match d.start_count {
        Some(v) => writes_u64(e[11].1, v),
        None => e[11].1 == Json::Null,
    }
    &&& e[12].0@ == "starts-at"@ && writes_date(e[12].1, d.starts_at)
    &&& e[13].0@ == "streak"@ && match d.streak {
        Some(v) => writes_u64(e[13].1, v),
        None => e[13].1 == Json::Null,
    }
    &&& e[14].0@ == "unit-type"@ && writes_unit_type(e[14].1, d.unit_type)
    &&& e[15].0@ == "user-id"@ && writes_u64(e[15].1, d.user_id)
    &&& e[16].0@ == "when"@ && match d.when {
        Some(v) => writes_u64(e[16].1, v),
        None => e[16].1 == Json::Null,
    }
    &&& e[17].0@ == "won-at"@ && match d.won_at {
        Some(v) => writes_timestamp(e[17].1, v),
        None => e[17].1 == Json::Null,
    }
    &&& e[18].0@ == "writing-location"@ && match d.writing_location {
        Some(v) => writes_str(e[18].1, v),
        None => e[18].1 == Json::Null,
    }
    &&& e[19].0@ == "writing-type"@ && match d.writing_type {
        Some(v) => writes_writing_type(e[19].1, v),
        None => e[19].1 == Json::Null,
    }
}

/// Whether every field can be read from the entries.
pub open spec fn project_challenge_data_fields_ok(o: Seq<(String, Json)>) -> bool {
    &&& (lookup(o, "challenge-id"@) matches Some(j) && json_u64(j) is Some)
    &&& (lookup(o, "current-count"@) matches Some(j) && json_u64(j) is Some)
    &&& (lookup(o, "ends-at"@) matches Some(j) && json_date(j) is Some)
    &&& (lookup(o, "event-type"@) matches Some(j) && json_event_type(j) is Some)
    &&& match lookup(o, "feeling"@) {
        Some(j) => j is Null || json_feeling(j) is Some,
        None => true,
    }
    &&& (lookup(o, "goal"@) matches Some(j) && json_u64(j) is Some)
    &&& match lookup(o, "how"@) {
        Some(j) => j is Null || json_how(j) is Some,
        None => true,
    }
    &&& match lookup(o, "last-recompute"@) {
        Some(j) => j is Null || json_timestamp(j) is Some,
        None => true,
    }
    &&& (lookup(o, "name"@) matches Some(j) && json_str(j) is Some)
    &&& (lookup(o, "project-id"@) matches Some(j) && json_u64(j) is Some)
    &&& match lookup(o, "speed"@) {
        Some(j) => j is Null || json_u64(j) is Some,
        None => true,
    }
    &&& match lookup(o, "start-count"@) {
        Some(j) => j is Null || json_u64(j) is Some,
        None => true,
    }
    &&& (lookup(o, "starts-at"@) matches Some(j) && json_date(j) is Some)
    &&& match lookup(o, "streak"@) {
        Some(j) => j is Null || json_u64(j) is Some,
        None => true,
    }
    &&& (lookup(o, "unit-type"@) matches Some(j) && json_unit_type(j) is Some)
    &&& (lookup(o, "user-id"@) matches Some(j) && json_u64(j) is Some)
    &&& match lookup(o, "when"@) {
        Some(j) => j is Null || json_u64(j) is Some,
        None => true,
    }
    &&& match lookup(o, "won-at"@) {
        Some(j) => j is Null || json_timestamp(j) is Some,
        None => true,
    }
    &&& match lookup(o, "writing-location"@) {
        Some(j) => j is Null || json_str(j) is Some,
        None => true,
    }
    &&& match lookup(o, "writing-type"@) {
        Some(j) => j is Null || json_writing_type(j) is Some,
        None => true,
    }
}

/// Whether `p` is the key a failed read of the fields names: the first
/// field, in schema order, that cannot be read.
pub open spec fn project_challenge_data_failed_at(o: Seq<(String, Json)>, p: Seq<char>) -> bool {
    ||| (p == "challenge-id"@ && !(lookup(o, "challenge-id"@) matches Some(j) && json_u64(j) is Some))
    ||| ((lookup(o, "challenge-id"@) matches Some(j) && json_u64(j) is Some) && p == "current-count"@ && !(lookup(o, "current-count"@) matches Some(j) && json_u64(j) is Some))
    ||| ((lookup(o, "challenge-id"@) matches Some(j) && json_u64(j) is Some) && (lookup(o, "current-count"@) matches Some(j) && json_u64(j) is Some) && p == "ends-at"@ && !(lookup(o, "ends-at"@) matches Some(j) && json_date(j) is Some))
    ||| ((lookup(o, "challenge-id"@) matches Some(j) && json_u64(j) is Some) && (lookup(o, "current-count"@) matches Some(j) && json_u64(j) is Some) && (lookup(o, "ends-at"@) matches Some(j) && json_date(j) is Some) && p == "event-type"@ && !(lookup(o, "event-type"@) matches Some(j) && json_event_type(j) is Some))
    ||| ((lookup(o, "challenge-id"@) matches Some(j) && json_u64(j) is Some) && (lookup(o, "current-count"@) matches Some(j) && json_u64(j) is Some) && (lookup(o, "ends-at"@) matches Some(j) && json_date(j) is Some) && (lookup(o, "event-type"@) matches Some(j) && json_event_type(j) is Some) && p == "feeling"@ && !(match lookup(o, "feeling"@) { Some(j) => j is Null || json_feeling(j) is Some, None => true }))
    ||| ((lookup(o, "challenge-id"@) matches Some(j) && json_u64(j) is Some) && (lookup(o, "current-count"@) matches Some(j) && json_u64(j) is Some) && (lookup(o, "ends-at"@) matches Some(j) && json_date(j) is Some) && (lookup(o, "event-type"@) matches Some(j) && json_event_type(j) is Some) && (match lookup(o, "feeling"@) { Some(j) => j is Null || json_feeling(j) is Some, None => true }) && p == "goal"@ && !(lookup(o, "goal"@) matches Some(j) && json_u64(j) is Some))
    ||| ((lookup(o, "challenge-id"@) matches Some(j) && json_u64(j) is Some) && (lookup(o, "current-count"@) matches Some(j) && json_u64(j) is Some) && (lookup(o, "ends-at"@) matches Some(j) && json_date(j) is Some) && (lookup(o, "event-type"@) matches Some(j) && json_event_type(j) is Some) && (match lookup(o, "feeling"@) { Some(j) => j is Null || json_feeling(j) is Some, None => true }) && (lookup(o, "goal"@) matches Some(j) && json_u64(j) is Some) && p == "how"@ && !(match lookup(o, "how"@) { Some(j) => j is Null || json_how(j) is Some, None => true }))
    ||| ((lookup(o, "challenge-id"@) matches Some(j) && json_u64(j) is Some) && (lookup(o, "current-count"@) matches Some(j) && json_u64(j) is Some) && (lookup(o, "ends-at"@) matches Some(j) && json_date(j) is Some) && (lookup(o, "event-type"@) matches Some(j) && json_event_type(j) is Some) && (match lookup(o, "feeling"@) { Some(j) => j is Null || json_feeling(j) is Some, None => true }) && (lookup(o, "goal"@) matches Some(j) && json_u64(j) is Some) && (match lookup(o, "how"@) { Some(j) => j is Null || json_how(j) is Some, None => true }) && p == "last-recompute"@ && !(match lookup(o, "last-recompute"@) { Some(j) => j is Null || json_timestamp(j) is Some, None => true }))
    ||| ((lookup(o, "challenge-id"@) matches Some(j) && json_u64(j) is Some) && (lookup(o, "current-count"@) matches Some(j) && json_u64(j) is Some) && (lookup(o, "ends-at"@) matches Some(j) && json_date(j) is Some) && (lookup(o, "event-type"@) matches Some(j) && json_event_type(j) is Some) && (match lookup(o, "feeling"@) { Some(j) => j is Null || json_feeling(j) is Some, None => true }) && (lookup(o, "goal"@) matches Some(j) && json_u64(j) is Some) && (match lookup(o, "how"@) { Some(j) => j is Null || json_how(j) is Some, None => true }) && (match lookup(o, "last-recompute"@) { Some(j) => j is Null || json_timestamp(j) is Some, None => true }) && p == "name"@ && !(lookup(o, "name"@) matches Some(j) && json_str(j) is Some))
    ||| ((lookup(o, "challenge-id"@) matches Some(j) && json_u64(j) is Some) && (lookup(o, "current-count"@) matches Some(j) && json_u64(j) is Some) && (lookup(o, "ends-at"@) matches Some(j) && json_date(j) is Some) && (lookup(o, "event-type"@) matches Some(j) && json_event_type(j) is Some) && (match lookup(o, "feeling"@) { Some(j) => j is Null || json_feeling(j) is Some, None => true }) && (lookup(o, "goal"@) matches Some(j) && json_u64(j) is Some) && (match lookup(o, "how"@) { Some(j) => j is Null || json_how(j) is Some, None => true }) && (match lookup(o, "last-recompute"@) { Some(j) => j is Null || json_timestamp(j) is Some, None => true }) && (lookup(o, "name"@) matches Some(j) && json_str(j) is Some) && p == "project-id"@ && !(lookup(o, "project-id"@) matches Some(j) && json_u64(j) is Some))
    ||| ((lookup(o, "challenge-id"@) matches Some(j) && json_u64(j) is Some) && (lookup(o, "current-count"@) matches Some(j) && json_u64(j) is Some) && (lookup(o, "ends-at"@) matches Some(j) && json_date(j) is Some) && (lookup(o, "event-type"@) matches Some(j) && json_event_type(j) is Some) && (match lookup(o, "feeling"@) { Some(j) => j is Null || json_feeling(j) is Some, None => true }) && (lookup(o, "goal"@) matches Some(j) && json_u64(j) is Some) && (match lookup(o, "how"@) { Some(j) => j is Null || json_how(j) is Some, None => true }) && (match lookup(o, "last-recompute"@) { Some(j) => j is Null || json_timestamp(j) is Some, None => true }) && (lookup(o, "name"@) matches Some(j) && json_str(j) is Some) && (lookup(o, "project-id"@) matches Some(j) && json_u64(j) is Some) && p == "speed"@ && !(match lookup(o, "speed"@) { Some(j) => j is Null || json_u64(j) is Some, None => true }))
    ||| ((lookup(o, "challenge-id"@) matches Some(j) && json_u64(j) is Some) && (lookup(o, "current-count"@) matches Some(j) && json_u64(j) is Some) && (lookup(o, "ends-at"@) matches Some(j) && json_date(j) is Some) && (lookup(o, "event-type"@) matches Some(j) && json_event_type(j) is Some) && (match lookup(o, "feeling"@) { Some(j) => j is Null || json_feeling(j) is Some, None => true }) && (lookup(o, "goal"@) matches Some(j) && json_u64(j) is Some) && (match lookup(o, "how"@) { Some(j) => j is Null || json_how(j) is Some, None => true }) && (match lookup(o, "last-recompute"@) { Some(j) => j is Null || json_timestamp(j) is Some, None => true }) && (lookup(o, "name"@) matches Some(j) && json_str(j) is Some) && (lookup(o, "project-id"@) matches Some(j) && json_u64(j) is Some) && (match lookup(o, "speed"@) { Some(j) => j is Null || json_u64(j) is Some, None => true }) && p == "start-count"@ && !(match lookup(o, "start-count"@) { Some(j) => j is Null || json_u64(j) is Some, None => true }))
    ||| ((lookup(o, "challenge-id"@) matches Some(j) && json_u64(j) is Some) && (lookup(o, "current-count"@) matches Some(j) && json_u64(j) is Some) && (lookup(o, "ends-at"@) matches Some(j) && json_date(j) is Some) && (lookup(o, "event-type"@) matches Some(j) && json_event_type(j) is Some) && (match lookup(o, "feeling"@) { Some(j) => j is Null || json_feeling(j) is Some, None => true }) && (lookup(o, "goal"@) matches Some(j) && json_u64(j) is Some) && (match lookup(o, "how"@) { Some(j) => j is Null || json_how(j) is Some, None => true }) && (match lookup(o, "last-recompute"@) { Some(j) => j is Null || json_timestamp(j) is Some, None => true }) && (lookup(o, "name"@) matches Some(j) && json_str(j) is Some) && (lookup(o, "project-id"@) matches Some(j) && json_u64(j) is Some) && (match lookup(o, "speed"@) { Some(j) => j is Null || json_u64(j) is Some, None => true }) && (match lookup(o, "start-count"@) { Some(j) => j is Null || json_u64(j) is Some, None => true }) && p == "starts-at"@ && !(lookup(o, "starts-at"@) matches Some(j) && json_date(j) is Some))
    ||| ((lookup(o, "challenge-id"@) matches Some(j) && json_u64(j) is Some) && (lookup(o, "current-count"@) matches Some(j) && json_u64(j) is Some) && (lookup(o, "ends-at"@) matches Some(j) && json_date(j) is Some) && (lookup(o, "event-type"@) matches Some(j) && json_event_type(j) is Some) && (match lookup(o, "feeling"@) { Some(j) => j is Null || json_feeling(j) is Some, None => true }) && (lookup(o, "goal"@) matches Some(j) && json_u64(j) is Some) && (match lookup(o, "how"@) { Some(j) => j is Null || json_how(j) is Some, None => true }) && (match lookup(o, "last-recompute"@) { Some(j) => j is Null || json_timestamp(j) is Some, None => true }) && (lookup(o, "name"@) matches Some(j) && json_str(j) is Some) && (lookup(o, "project-id"@) matches Some(j) && json_u64(j) is Some) && (match lookup(o, "speed"@) { Some(j) => j is Null || json_u64(j) is Some, None => true }) && (match lookup(o, "start-count"@) { Some(j) => j is Null || json_u64(j) is Some, None => true }) && (lookup(o, "starts-at"@) matches Some(j) && json_date(j) is Some) && p == "streak"@ && !(match lookup(o, "streak"@) { Some(j) => j is Null || json_u64(j) is Some, None => true }))
    ||| ((lookup(o, "challenge-id"@) matches Some(j) && json_u64(j) is Some) && (lookup(o, "current-count"@) matches Some(j) && json_u64(j) is Some) && (lookup(o, "ends-at"@) matches Some(j) && json_date(j) is Some) && (lookup(o, "event-type"@) matches Some(j) && json_event_type(j) is Some) && (match lookup(o, "feeling"@) { Some(j) => j is Null || json_feeling(j) is Some, None => true }) && (lookup(o, "goal"@) matches Some(j) && json_u64(j) is Some) && (match lookup(o, "how"@) { Some(j) => j is Null || json_how(j) is Some, None => true }) && (match lookup(o, "last-recompute"@) { Some(j) => j is Null || json_timestamp(j) is Some, None => true }) && (lookup(o, "name"@) matches Some(j) && json_str(j) is Some) && (lookup(o, "project-id"@) matches Some(j) && json_u64(j) is Some) && (match lookup(o, "speed"@) { Some(j) => j is Null || json_u64(j) is Some, None => true }) && (match lookup(o, "start-count"@) { Some(j) => j is Null || json_u64(j) is Some, None => true }) && (lookup(o, "starts-at"@) matches Some(j) && json_date(j) is Some) && (match lookup(o, "streak"@) { Some(j) => j is Null || json_u64(j) is Some, None => true }) && p == "unit-type"@ && !(lookup(o, "unit-type"@) matches Some(j) && json_unit_type(j) is Some))
    ||| ((lookup(o, "challenge-id"@) matches Some(j) && json_u64(j) is Some) && (lookup(o, "current-count"@) matches Some(j) && json_u64(j) is Some) && (lookup(o, "ends-at"@) matches Some(j) && json_date(j) is Some) && (lookup(o, "event-type"@) matches Some(j) && json_event_type(j) is Some) && (match lookup(o, "feeling"@) { Some(j) => j is Null || json_feeling(j) is Some, None => true }) && (lookup(o, "goal"@) matches Some(j) && json_u64(j) is Some) && (match lookup(o, "how"@) { Some(j) => j is Null || json_how(j) is Some, None => true }) && (match lookup(o, "last-recompute"@) { Some(j) => j is Null || json_timestamp(j) is Some, None => true }) && (lookup(o, "name"@) matches Some(j) && json_str(j) is Some) && (lookup(o, "project-id"@) matches Some(j) && json_u64(j) is Some) && (match lookup(o, "speed"@) { Some(j) => j is Null || json_u64(j) is Some, None => true }) && (match lookup(o, "start-count"@) { Some(j) => j is Null || json_u64(j) is Some, None => true }) && (lookup(o, "starts-at"@) matches Some(j) && json_date(j) is Some) && (match lookup(o, "streak"@) { Some(j) => j is Null || json_u64(j) is Some, None => true }) && (lookup(o, "unit-type"@) matches Some(j) && json_unit_type(j) is Some) && p == "user-id"@ && !(lookup(o, "user-id"@) matches Some(j) && json_u64(j) is Some))
    ||| ((lookup(o, "challenge-id"@) matches Some(j) && json_u64(j) is Some) && (lookup(o, "current-count"@) matches Some(j) && json_u64(j) is Some) && (lookup(o, "ends-at"@) matches Some(j) && json_date(j) is Some) && (lookup(o, "event-type"@) matches Some(j) && json_event_type(j) is Some) && (match lookup(o, "feeling"@) { Some(j) => j is Null || json_feeling(j) is Some, None => true }) && (lookup(o, "goal"@) matches Some(j) && json_u64(j) is Some) && (match lookup(o, "how"@) { Some(j) => j is Null || json_how(j) is Some, None => true }) && (match lookup(o, "last-recompute"@) { Some(j) => j is Null || json_timestamp(j) is Some, None => true }) && (lookup(o, "name"@) matches Some(j) && json_str(j) is Some) && (lookup(o, "project-id"@) matches Some(j) && json_u64(j) is Some) && (match lookup(o, "speed"@) { Some(j) => j is Null || json_u64(j) is Some, None => true }) && (match lookup(o, "start-count"@) { Some(j) => j is Null || json_u64(j) is Some, None => true }) && (lookup(o, "starts-at"@) matches Some(j) && json_date(j) is Some) && (match lookup(o, "streak"@) { Some(j) => j is Null || json_u64(j) is Some, None => true }) && (lookup(o, "unit-type"@) matches Some(j) && json_unit_type(j) is Some) && (lookup(o, "user-id"@) matches Some(j) && json_u64(j) is Some) && p == "when"@ && !(match lookup(o, "when"@) { Some(j) => j is Null || json_u64(j) is Some, None => true }))
    ||| ((lookup(o, "challenge-id"@) matches Some(j) && json_u64(j) is Some) && (lookup(o, "current-count"@) matches Some(j) && json_u64(j) is Some) && (lookup(o, "ends-at"@) matches Some(j) && json_date(j) is Some) && (lookup(o, "event-type"@) matches Some(j) && json_event_type(j) is Some) && (match lookup(o, "feeling"@) { Some(j) => j is Null || json_feeling(j) is Some, None => true }) && (lookup(o, "goal"@) matches Some(j) && json_u64(j) is Some) && (match lookup(o, "how"@) { Some(j) => j is Null || json_how(j) is Some, None => true }) && (match lookup(o, "last-recompute"@) { Some(j) => j is Null || json_timestamp(j) is Some, None => true }) && (lookup(o, "name"@) matches Some(j) && json_str(j) is Some) && (lookup(o, "project-id"@) matches Some(j) && json_u64(j) is Some) && (match lookup(o, "speed"@) { Some(j) => j is Null || json_u64(j) is Some, None => true }) && (match lookup(o, "start-count"@) { Some(j) => j is Null || json_u64(j) is Some, None => true }) && (lookup(o, "starts-at"@) matches Some(j) && json_date(j) is Some) && (match lookup(o, "streak"@) { Some(j) => j is Null || json_u64(j) is Some, None => true }) && (lookup(o, "unit-type"@) matches Some(j) && json_unit_type(j) is Some) && (lookup(o, "user-id"@) matches Some(j) && json_u64(j) is Some) && (match lookup(o, "when"@) { Some(j) => j is Null || json_u64(j) is Some, None => true }) && p == "won-at"@ && !(match lookup(o, "won-at"@) { Some(j) => j is Null || json_timestamp(j) is Some, None => true }))
    ||| ((lookup(o, "challenge-id"@) matches Some(j) && json_u64(j) is Some) && (lookup(o, "current-count"@) matches Some(j) && json_u64(j) is Some) && (lookup(o, "ends-at"@) matches Some(j) && json_date(j) is Some) && (lookup(o, "event-type"@) matches Some(j) && json_event_type(j) is Some) && (match lookup(o, "feeling"@) { Some(j) => j is Null || json_feeling(j) is Some, None => true }) && (lookup(o, "goal"@) matches Some(j) && json_u64(j) is Some) && (match lookup(o, "how"@) { Some(j) => j is Null || json_how(j) is Some, None => true }) && (match lookup(o, "last-recompute"@) { Some(j) => j is Null || json_timestamp(j) is Some, None => true }) && (lookup(o, "name"@) matches Some(j) && json_str(j) is Some) && (lookup(o, "project-id"@) matches Some(j) && json_u64(j) is Some) && (match lookup(o, "speed"@) { Some(j) => j is Null || json_u64(j) is Some, None => true }) && (match lookup(o, "start-count"@) { Some(j) => j is Null || json_u64(j) is Some, None => true }) && (lookup(o, "starts-at"@) matches Some(j) && json_date(j) is Some) && (match lookup(o, "streak"@) { Some(j) => j is Null || json_u64(j) is Some, None => true }) && (lookup(o, "unit-type"@) matches Some(j) && json_unit_type(j) is Some) && (lookup(o, "user-id"@) matches Some(j) && json_u64(j) is Some) && (match lookup(o, "when"@) { Some(j) => j is Null || json_u64(j) is Some, None => true }) && (match lookup(o, "won-at"@) { Some(j) => j is Null || json_timestamp(j) is Some, None => true }) && p == "writing-location"@ && !(match lookup(o, "writing-location"@) { Some(j) => j is Null || json_str(j) is Some, None => true }))
    ||| ((lookup(o, "challenge-id"@) matches Some(j) && json_u64(j) is Some) && (lookup(o, "current-count"@) matches Some(j) && json_u64(j) is Some) && (lookup(o, "ends-at"@) matches Some(j) && json_date(j) is Some) && (lookup(o, "event-type"@) matches Some(j) && json_event_type(j) is Some) && (match lookup(o, "feeling"@) { Some(j) => j is Null || json_feeling(j) is Some, None => true }) && (lookup(o, "goal"@) matches Some(j) && json_u64(j) is Some) && (match lookup(o, "how"@) { Some(j) => j is Null || json_how(j) is Some, None => true }) && (match lookup(o, "last-recompute"@) { Some(j) => j is Null || json_timestamp(j) is Some, None => true }) && (lookup(o, "name"@) matches Some(j) && json_str(j) is Some) && (lookup(o, "project-id"@) matches Some(j) && json_u64(j) is Some) && (match lookup(o, "speed"@) { Some(j) => j is Null || json_u64(j) is Some, None => true }) && (match lookup(o, "start-count"@) { Some(j) => j is Null || json_u64(j) is Some, None => true }) && (lookup(o, "starts-at"@) matches Some(j) && json_date(j) is Some) && (match lookup(o, "streak"@) { Some(j) => j is Null || json_u64(j) is Some, None => true }) && (lookup(o, "unit-type"@) matches Some(j) && json_unit_type(j) is Some) && (lookup(o, "user-id"@) matches Some(j) && json_u64(j) is Some) && (match lookup(o, "when"@) { Some(j) => j is Null || json_u64(j) is Some, None => true }) && (match lookup(o, "won-at"@) { Some(j) => j is Null || json_timestamp(j) is Some, None => true }) && (match lookup(o, "writing-location"@) { Some(j) => j is Null || json_str(j) is Some, None => true }) && p == "writing-type"@ && !(match lookup(o, "writing-type"@) { Some(j) => j is Null || json_writing_type(j) is Some, None => true }))
}

/// Whether `p` is the key a failed read of a ProjectChallengeData object names: the
/// first unknown key, else the first unreadable field.
pub open spec fn project_challenge_data_error_at(o: Seq<(String, Json)>, p: Seq<char>) -> bool {
    if keys_within(o, seq!["challenge-id", "current-count", "ends-at", "event-type", "feeling", "goal", "how", "last-recompute", "name", "project-id", "speed", "start-count", "starts-at", "streak", "unit-type", "user-id", "when", "won-at", "writing-location", "writing-type"]) {
        project_challenge_data_failed_at(o, p)
    } else {
        !is_one_of(p, seq!["challenge-id", "current-count", "ends-at", "event-type", "feeling", "goal", "how", "last-recompute", "name", "project-id", "speed", "start-count", "starts-at", "streak", "unit-type", "user-id", "when", "won-at", "writing-location", "writing-type"])
    }
}

/// Whether a wire object is a readable ProjectChallengeData: no unknown key, and every field readable.
pub open spec fn project_challenge_data_wire_ok(j: Json) -> bool {
    match j {
        Json::Object(e) => keys_within(e@, seq!["challenge-id", "current-count", "ends-at", "event-type", "feeling", "goal", "how", "last-recompute", "name", "project-id", "speed", "start-count", "starts-at", "streak", "unit-type", "user-id", "when", "won-at", "writing-location", "writing-type"]) && project_challenge_data_fields_ok(e@),
        _ => false,
    }
}

impl ProjectChallengeData {
    /// Reads the fields from an object's entries; keys of other fields are ignored.
    fn from_fields(o: &Vec<(String, Json)>) -> (r: Result<ProjectChallengeData, DecodeError>)
        ensures
            r matches Ok(d) ==> project_challenge_data_read_from(o@, d),
            project_challenge_data_fields_ok(o@) <==> r is Ok,
            r matches Err(e) ==> e.path@.len() == 1 && project_challenge_data_failed_at(o@, e.path@[0]@),
    {
        let challenge_id = field_u64(o, "challenge-id")?;
        let current_count = field_u64(o, "current-count")?;
        let ends_at = field_date(o, "ends-at")?;
        let event_type = field_event_type(o, "event-type")?;
        let feeling = opt_field_feeling(o, "feeling")?;
        let goal = field_u64(o, "goal")?;
        let how = opt_field_how(o, "how")?;
        let last_recompute = opt_field_timestamp(o, "last-recompute")?;
        let name = field_str(o, "name")?;
        let project_id = field_u64(o, "project-id")?;
        let speed = opt_field_u64(o, "speed")?;
        let start_count = opt_field_u64(o, "start-count")?;
        let starts_at = field_date(o, "starts-at")?;
        let streak = opt_field_u64(o, "streak")?;
        let unit_type = field_unit_type(o, "unit-type")?;
        let user_id = field_u64(o, "user-id")?;
        let when = opt_field_u64(o, "when")?;
        let won_at = opt_field_timestamp(o, "won-at")?;
        let writing_location = opt_field_str(o, "writing-location")?;
        let writing_type = opt_field_writing_type(o, "writing-type")?;
        Ok(ProjectChallengeData { challenge_id, current_count, ends_at, event_type, feeling, goal, how, last_recompute, name, project_id, speed, start_count, starts_at, streak, unit_type, user_id, when, won_at, writing_location, writing_type })
    }

    /// Appends the fields to an object's entries, in declaration order.
    fn push_fields(&self, e: &mut Vec<(String, Json)>)
        requires
            old(e)@.len() == 0,
        ensures
            project_challenge_data_written_as(final(e)@, *self),
    {
        e.push((String::from_str("challenge-id"), u64_json(&self.challenge_id)));
        e.push((String::from_str("current-count"), u64_json(&self.current_count)));
        e.push((String::from_str("ends-at"), date_json(&self.ends_at)));
        e.push((String::from_str("event-type"), event_type_json(&self.event_type)));
        e.push((String::from_str("feeling"), opt_feeling_json(&self.feeling)));
        e.push((String::from_str("goal"), u64_json(&self.goal)));
        e.push((String::from_str("how"), opt_how_json(&self.how)));
        e.push((String::from_str("last-recompute"), opt_timestamp_json(&self.last_recompute)));
        e.push((String::from_str("name"), str_json(&self.name)));
        e.push((String::from_str("project-id"), u64_json(&self.project_id)));
        e.push((String::from_str("speed"), opt_u64_json(&self.speed)));
        e.push((String::from_str("start-count"), opt_u64_json(&self.start_count)));
        e.push((String::from_str("starts-at"), date_json(&self.starts_at)));
        e.push((String::from_str("streak"), opt_u64_json(&self.streak)));
        e.push((String::from_str("unit-type"), unit_type_json(&self.unit_type)));
        e.push((String::from_str("user-id"), u64_json(&self.user_id)));
        e.push((String::from_str("when"), opt_u64_json(&self.when)));
        e.push((String::from_str("won-at"), opt_timestamp_json(&self.won_at)));
        e.push((String::from_str("writing-location"), opt_str_json(&self.writing_location)));
        e.push((String::from_str("writing-type"), opt_writing_type_json(&self.writing_type)));
    }

    /// Reads an object of this shape; a key outside the schema is refused.
    pub fn from_json(j: &Json) -> (r: Result<ProjectChallengeData, DecodeError>)
        ensures
            !(j is Object) ==> r is Err,
            r matches Ok(d) ==> (j matches Json::Object(e) && project_challenge_data_read_from(e@, d)),
            project_challenge_data_wire_ok(*j) <==> r is Ok,
            r matches Err(e) ==> match *j {
                Json::Object(o) => e.path@.len() == 1 && project_challenge_data_error_at(o@, e.path@[0]@),
                _ => e.path@.len() == 0,
            },
            r is Ok ==> (j matches Json::Object(e) && keys_within(e@, seq!["challenge-id", "current-count", "ends-at", "event-type", "feeling", "goal", "how", "last-recompute", "name", "project-id", "speed", "start-count", "starts-at", "streak", "unit-type", "user-id", "when", "won-at", "writing-location", "writing-type"])),
    {
        match j {
            Json::Object(o) => {
                check_keys(o, &vec!["challenge-id", "current-count", "ends-at", "event-type", "feeling", "goal", "how", "last-recompute", "name", "project-id", "speed", "start-count", "starts-at", "streak", "unit-type", "user-id", "when", "won-at", "writing-location", "writing-type"])?;
                ProjectChallengeData::from_fields(o)
            },
            _ => Err(not_an_object()),
        }
    }

    /// Writes an object of this shape.
    pub fn to_json(&self) -> (r: Json)
        ensures
            r matches Json::Object(e) && project_challenge_data_written_as(e@, *self),
    {
        let mut e: Vec<(String, Json)> = Vec::new();
        self.push_fields(&mut e);
        Json::Object(e)
    }
}

/// The attributes of a badge awarded to a user.
#[derive(Clone, Debug, PartialEq)]
pub struct UserBadgeData {
    pub badge_id: u64,
    pub created_at: Timestamp,
    pub project_challenge_id: u64,
    pub user_id: u64,
}

/// Whether each plain field of `d` is what the entries hold under its key.
pub open spec fn user_badge_data_read_from(o: Seq<(String, Json)>, d: UserBadgeData) -> bool {
    &&& (lookup(o, "badge-id"@) matches Some(j) && json_u64(j) == Some(d.badge_id))
    &&& (lookup(o, "created-at"@) matches Some(j) && json_timestamp(j) == Some(d.created_at@))
    &&& (lookup(o, "project-challenge-id"@) matches Some(j) && json_u64(j) == Some(d.project_challenge_id))
    &&& (lookup(o, "user-id"@) matches Some(j) && json_u64(j) == Some(d.user_id))
}

/// Whether the entries are the fields of `d`, in order, each under its key in its wire form.
pub open spec fn user_badge_data_written_as(e: Seq<(String, Json)>, d: UserBadgeData) -> bool {
    &&& e.len() == 4
    &&& e[0].0@ == "badge-id"@ && writes_u64(e[0].1, d.badge_id)
    &&& e[1].0@ == "created-at"@ && writes_timestamp(e[1].1, d.created_at)
    &&& e[2].0@ == "project-challenge-id"@ && writes_u64(e[2].1, d.project_challenge_id)
    &&& e[3].0@ == "user-id"@ && writes_u64(e[3].1, d.user_id)
}

/// Whether every field can be read from the entries.
pub open spec fn user_badge_data_fields_ok(o: Seq<(String, Json)>) -> bool {
    &&& (lookup(o, "badge-id"@) matches Some(j) && json_u64(j) is Some)
    &&& (lookup(o, "created-at"@) matches Some(j) && json_timestamp(j) is Some)
    &&& (lookup(o, "project-challenge-id"@) matches Some(j) && json_u64(j) is Some)
    &&& (lookup(o, "user-id"@) matches Some(j) && json_u64(j) is Some)
}

/// Whether `p` is the key a failed read of the fields names: the first
/// field, in schema order, that cannot be read.
pub open spec fn user_badge_data_failed_at(o: Seq<(String, Json)>, p: Seq<char>) -> bool {
    ||| (p == "badge-id"@ && !(lookup(o, "badge-id"@) matches Some(j) && json_u64(j) is Some))
    ||| ((lookup(o, "badge-id"@) matches Some(j) && json_u64(j) is Some) && p == "created-at"@ && !(lookup(o, "created-at"@) matches Some(j) && json_timestamp(j) is Some))
    ||| ((lookup(o, "badge-id"@) matches Some(j) && json_u64(j) is Some) && (lookup(o, "created-at"@) matches Some(j) && json_timestamp(j) is Some) && p == "project-challenge-id"@ && !(lookup(o, "project-challenge-id"@) matches Some(j) && json_u64(j) is Some))
    ||| ((lookup(o, "badge-id"@) matches Some(j) && json_u64(j) is Some) && (lookup(o, "created-at"@) matches Some(j) && json_timestamp(j) is Some) && (lookup(o, "project-challenge-id"@) matches Some(j) && json_u64(j) is Some) && p == "user-id"@ && !(lookup(o, "user-id"@) matches Some(j) && json_u64(j) is Some))
}

/// Whether `p` is the key a failed read of a UserBadgeData object names: the
/// first unknown key, else the first unreadable field.
pub open spec fn user_badge_data_error_at(o: Seq<(String, Json)>, p: Seq<char>) -> bool {
    if keys_within(o, seq!["badge-id", "created-at", "project-challenge-id", "user-id"]) {
        user_badge_data_failed_at(o, p)
    } else {
        !is_one_of(p, seq!["badge-id", "created-at", "project-challenge-id", "user-id"])
    }
}

/// Whether a wire object is a readable UserBadgeData: no unknown key, and every field readable.
pub open spec fn user_badge_data_wire_ok(j: Json) -> bool {
    match j {
        Json::Object(e) => keys_within(e@, seq!["badge-id", "created-at", "project-challenge-id", "user-id"]) && user_badge_data_fields_ok(e@),
        _ => false,
    }
}

impl UserBadgeData {
    /// Reads the fields from an object's entries; keys of other fields are ignored.
    fn from_fields(o: &Vec<(String, Json)>) -> (r: Result<UserBadgeData, DecodeError>)
        ensures
            r matches Ok(d) ==> user_badge_data_read_from(o@, d),
            user_badge_data_fields_ok(o@) <==> r is Ok,
            r matches Err(e) ==> e.path@.len() == 1 && user_badge_data_failed_at(o@, e.path@[0]@),
    {
        let badge_id = field_u64(o, "badge-id")?;
        let created_at = field_timestamp(o, "created-at")?;
        let project_challenge_id = field_u64(o, "project-challenge-id")?;
        let user_id = field_u64(o, "user-id")?;
        Ok(UserBadgeData { badge_id, created_at, project_challenge_id, user_id })
    }

    /// Appends the fields to an object's entries, in declaration order.
    fn push_fields(&self, e: &mut Vec<(String, Json)>)
        requires
            old(e)@.len() == 0,
        ensures
            user_badge_data_written_as(final(e)@, *self),
    {
        e.push((String::from_str("badge-id"), u64_json(&self.badge_id)));
        e.push((String::from_str("created-at"), timestamp_json(&self.created_at)));
        e.push((String::from_str("project-challenge-id"), u64_json(&self.project_challenge_id)));
        e.push((String::from_str("user-id"), u64_json(&self.user_id)));
    }

    /// Reads an object of this shape; a key outside the schema is refused.
    pub fn from_json(j: &Json) -> (r: Result<UserBadgeData, DecodeError>)
        ensures
            !(j is Object) ==> r is Err,
            r matches Ok(d) ==> (j matches Json::Object(e) && user_badge_data_read_from(e@, d)),
            user_badge_data_wire_ok(*j) <==> r is Ok,
            r matches Err(e) ==> match *j {
                Json::Object(o) => e.path@.len() == 1 && user_badge_data_error_at(o@, e.path@[0]@),
                _ => e.path@.len() == 0,
            },
            r is Ok ==> (j matches Json::Object(e) && keys_within(e@, seq!["badge-id", "created-at", "project-challenge-id", "user-id"])),
    {
        match j {
            Json::Object(o) => {
                check_keys(o, &vec!["badge-id", "created-at", "project-challenge-id", "user-id"])?;
                UserBadgeData::from_fields(o)
            },
            _ => Err(not_an_object()),
        }
    }

    /// Writes an object of this shape.
    pub fn to_json(&self) -> (r: Json)
        ensures
            r matches Json::Object(e) && user_badge_data_written_as(e@, *self),
    {
        let mut e: Vec<(String, Json)> = Vec::new();
        self.push_fields(&mut e);
        Json::Object(e)
    }
}

} // verus!
