//! Opt-in usage telemetry: whether it is enabled, the device it reports
//! as, and the names of the events it records.

use vstd::prelude::*;
use crate::text::str_eq;

verus! {

/// The kinds of events recorded.
pub enum EventType {
    AppLaunch,
    ProjectCreate,
    ProjectRun,
    ProjectDeploy,
    ProjectDelete,
    Publish,
    ScheduleCreate,
    TemplateInstall,
    TargetAdd,
    RunFailed,
    DeployFailed,
    AgentConnectFailed,
    PublishFailed,
    AppPanic,
}

impl EventType {
    /// The event's name as it is recorded (snake case).
    pub fn as_str(&self) -> (s: &'static str)
        ensures
            s@ == match *self {
                EventType::AppLaunch => "app_launch"@,
                EventType::ProjectCreate => "project_create"@,
                EventType::ProjectRun => "project_run"@,
                EventType::ProjectDeploy => "project_deploy"@,
                EventType::ProjectDelete => "project_delete"@,
                EventType::Publish => "publish"@,
                EventType::ScheduleCreate => "schedule_create"@,
                EventType::TemplateInstall => "template_install"@,
                EventType::TargetAdd => "target_add"@,
                EventType::RunFailed => "run_failed"@,
                EventType::DeployFailed => "deploy_failed"@,
                EventType::AgentConnectFailed => "agent_connect_failed"@,
                EventType::PublishFailed => "publish_failed"@,
                EventType::AppPanic => "app_panic"@,
            },
    {
        match self {
            EventType::AppLaunch => "app_launch",
            EventType::ProjectCreate => "project_create",
            EventType::ProjectRun => "project_run",
            EventType::ProjectDeploy => "project_deploy",
            EventType::ProjectDelete => "project_delete",
            EventType::Publish => "publish",
            EventType::ScheduleCreate => "schedule_create",
            EventType::TemplateInstall => "template_install",
            EventType::TargetAdd => "target_add",
            EventType::RunFailed => "run_failed",
            EventType::DeployFailed => "deploy_failed",
            EventType::AgentConnectFailed => "agent_connect_failed",
            EventType::PublishFailed => "publish_failed",
            EventType::AppPanic => "app_panic",
        }
    }
}

/// The value of the first setting named `key`.
pub open spec fn setting(settings: Seq<(String, String)>, key: Seq<char>) -> Option<Seq<char>>
    decreases settings.len(),
{
    if settings.len() == 0 {
        None
    } else if settings[0].0@ == key {
        Some(settings[0].1@)
    } else {
        setting(settings.drop_first(), key)
    }
}

fn lookup<'a>(settings: &'a Vec<(String, String)>, key: &str) -> (r: Option<&'a String>)
    ensures
        match r {
            Some(v) => setting(settings@, key@) == Some(v@),
            None => setting(settings@, key@) is None,
        },
{
    let mut i: usize = 0;
    assert(settings@.skip(0) == settings@);
    while i < settings.len()
        invariant
            i <= settings.len(),
            setting(settings@, key@) == setting(settings@.skip(i as int), key@),
        decreases settings.len() - i,
    {
        assert(settings@.skip(i as int).drop_first() == settings@.skip(i + 1));
        if str_eq(settings[i].0.as_str(), key) {
            return Some(&settings[i].1);
        }
        i = i + 1;
    }
    None
}

/// Telemetry is on only when the setting says `true`.
pub open spec fn enabled_in(settings: Seq<(String, String)>) -> bool {
    setting(settings, "telemetry_enabled"@) == Some("true"@)
}

/// The stored device id, when there is a non-empty one.
pub open spec fn stored_device_id(settings: Seq<(String, String)>) -> Option<Seq<char>> {
    match setting(settings, "telemetry_device_id"@) {
        Some(id) if id.len() > 0 => Some(id),
        _ => None,
    }
}

/// The telemetry state of the desktop app.
pub struct Telemetry {
    enabled: bool,
    device_id: String,
    app_version: String,
}

impl Telemetry {
    pub closed spec fn is_enabled(&self) -> bool {
        self.enabled
    }

    pub closed spec fn device(&self) -> Seq<char> {
        self.device_id@
    }

    pub closed spec fn version(&self) -> Seq<char> {
        self.app_version@
    }

    /// The telemetry state the settings describe; `fresh_id` becomes the
    /// device id when none is stored, and is then handed back to be saved.
    pub fn from_settings(settings: &Vec<(String, String)>, fresh_id: String, app_version: &str) -> (r: (Telemetry, Option<String>))
        ensures
            r.0.is_enabled() == enabled_in(settings@),
            r.0.version() == app_version@,
            match stored_device_id(settings@) {
                Some(id) => r.0.device() == id && r.1 is None,
                None => r.0.device() == fresh_id@ && r.1 == Some(fresh_id),
            },
    {
        let enabled = match lookup(settings, "telemetry_enabled") {
            Some(v) => str_eq(v.as_str(), "true"),
            None => false,
        };
        let (device_id, new_id) = match lookup(settings, "telemetry_device_id") {
            Some(id) if id.as_str().unicode_len() > 0 => (id.clone(), None),
            _ => (fresh_id.clone(), Some(fresh_id)),
        };
        (Telemetry { enabled, device_id, app_version: app_version.to_owned() }, new_id)
    }

    /// The telemetry state of the settings, with a fresh random device id
    /// when none is stored (handed back to be saved).
    pub fn new(settings: &Vec<(String, String)>, app_version: &str) -> (r: (Telemetry, Option<String>))
        ensures
            r.0.is_enabled() == enabled_in(settings@),
            match stored_device_id(settings@) {
                Some(id) => r.0.device() == id && r.1 is None,
                None => crate::ids::hyphenated_uuid(r.0.device()) && (r.1 matches Some(n) && n@ == r.0.device()),
            },
    {
        let fresh = crate::ids::new_uuid_string();
        Telemetry::from_settings(settings, fresh, app_version)
    }

    pub fn enabled(&self) -> (b: bool)
        ensures
            b == self.is_enabled(),
    {
        self.enabled
    }

    pub fn device_id(&self) -> (s: &str)
        ensures
            s@ == self.device(),
    {
        self.device_id.as_str()
    }

    /// Turns telemetry on or off; returns the value to store for the
    /// `telemetry_enabled` setting.
    pub fn set_enabled(&mut self, enabled: bool) -> (stored: &'static str)
        ensures
            final(self).is_enabled() == enabled,
            final(self).device() == old(self).device(),
            final(self).version() == old(self).version(),
            stored@ == (if enabled { "true"@ } else { "false"@ }),
    {
        self.enabled = enabled;
        if enabled {
            "true"
        } else {
            "false"
        }
    }

    /// Whether an event is recorded at all.
    pub fn should_track(&self) -> (b: bool)
        ensures
            b == self.is_enabled(),
    {
        self.enabled
    }

    /// Replaces the device id after the local data was purged.
    pub fn reset_device_id(&mut self, new_id: String)
        ensures
            final(self).device() == new_id@,
            final(self).is_enabled() == old(self).is_enabled(),
            final(self).version() == old(self).version(),
    {
        self.device_id = new_id;
    }
}

} // verus!
