use vstd::prelude::*;
use crate::outside::now_rfc3339;
use vstd::string::StringExecFns;

verus! {

/// A launchable target.
pub struct LaunchItem {
    pub id: String,
    pub name: String,
    pub path: String,
    pub args: Vec<String>,
    pub working_dir: Option<String>,
    pub icon: Option<String>,
    pub shortcut: Option<String>,
    pub group_id: Option<String>,
    pub order: i32,
    pub created_at: String,
    pub updated_at: String,
}

/// A visual / logical container for launch items.
pub struct Group {
    pub id: String,
    pub name: String,
    pub color: Option<String>,
    pub icon: Option<String>,
    pub expanded: bool,
    pub order: i32,
    pub created_at: String,
    pub updated_at: String,
}

/// The singleton settings record.
pub struct AppSettings {
    /// "light" or "dark".
    pub theme: String,
    pub auto_save: bool,
    pub show_notifications: bool,
    pub window_width: i32,
    pub window_height: i32,
}

/// The fields a caller supplies to create a launch item.
pub struct CreateLaunchItemRequest {
    pub name: String,
    pub path: String,
    pub args: Vec<String>,
    pub working_dir: Option<String>,
    pub icon: Option<String>,
    pub shortcut: Option<String>,
    pub group_id: Option<String>,
}

/// A partial update of a launch item: each present field replaces the item's.
pub struct UpdateLaunchItemRequest {
    pub id: String,
    pub name: Option<String>,
    pub path: Option<String>,
    pub args: Option<Vec<String>>,
    pub working_dir: Option<String>,
    pub icon: Option<String>,
    pub shortcut: Option<String>,
    pub group_id: Option<String>,
    pub order: Option<i32>,
}

/// The fields a caller supplies to create a group.
pub struct CreateGroupRequest {
    pub name: String,
    pub color: Option<String>,
    pub icon: Option<String>,
    pub expanded: bool,
}

/// A partial update of a group: each present field replaces the group's.
pub struct UpdateGroupRequest {
    pub id: String,
    pub name: Option<String>,
    pub color: Option<String>,
    pub icon: Option<String>,
    pub expanded: Option<bool>,
    pub order: Option<i32>,
}

/// The consolidated snapshot of every collection.
pub struct AppConfig {
    pub groups: Vec<Group>,
    pub launch_items: Vec<LaunchItem>,
    pub settings: AppSettings,
    pub version: String,
    pub last_saved: String,
}

/// Why an entity operation did not take place.
pub enum OpError {
    /// No entity carries the requested id.
    NotFound(String),
    /// The id offered for a new entity is already in use.
    DuplicateId(String),
}

pub const APP_VERSION: &'static str = "0.1.0";

pub open spec fn app_version() -> Seq<char> {
    APP_VERSION@
}

impl OpError {
    /// The text that reports this error, naming the id concerned.
    pub open spec fn message_of(&self) -> Seq<char> {
        match self {
            OpError::NotFound(id) => "Not found: "@ + id@,
            OpError::DuplicateId(id) => "Id already in use: "@ + id@,
        }
    }

    /// A short message naming what failed and the id concerned.
    pub fn message(&self) -> (r: String)
        ensures
            r@ == self.message_of(),
    {
        match self {
            OpError::NotFound(id) => String::from_str("Not found: ").concat(id.as_str()),
            OpError::DuplicateId(id) => String::from_str("Id already in use: ").concat(id.as_str()),
        }
    }
}

/// A copy of `s` with every string equal to the original one.
pub fn copy_strings(s: &Vec<String>) -> (r: Vec<String>)
    ensures
        r@ == s@,
{
    let mut r: Vec<String> = Vec::new();
    let mut i: usize = 0;
    while i < s.len()
        invariant
            i <= s@.len(),
            r@ == s@.subrange(0, i as int),
        decreases s@.len() - i,
    {
        r.push(s[i].clone());
        i = i + 1;
        assert(r@ =~= s@.subrange(0, i as int));
    }
    assert(r@ =~= s@);
    r
}

/// A copy of an optional string.
pub fn copy_opt(o: &Option<String>) -> (r: Option<String>)
    ensures
        r == *o,
{
    match o {
        Some(s) => Some(s.clone()),
        None => None,
    }
}

impl LaunchItem {
    /// Field-by-field equality, the argument list compared by its contents.
    pub open spec fn same_as(&self, o: &LaunchItem) -> bool {
        &&& self.id == o.id
        &&& self.name == o.name
        &&& self.path == o.path
        &&& self.args@ == o.args@
        &&& self.working_dir == o.working_dir
        &&& self.icon == o.icon
        &&& self.shortcut == o.shortcut
        &&& self.group_id == o.group_id
        &&& self.order == o.order
        &&& self.created_at == o.created_at
        &&& self.updated_at == o.updated_at
    }

    /// A copy that agrees with `self` in every field.
    pub fn copy(&self) -> (r: LaunchItem)
        ensures
            r.same_as(self),
    {
        LaunchItem {
            id: self.id.clone(),
            name: self.name.clone(),
            path: self.path.clone(),
            args: copy_strings(&self.args),
            working_dir: copy_opt(&self.working_dir),
            icon: copy_opt(&self.icon),
            shortcut: copy_opt(&self.shortcut),
            group_id: copy_opt(&self.group_id),
            order: self.order,
            created_at: self.created_at.clone(),
            updated_at: self.updated_at.clone(),
        }
    }
}

impl Group {
    /// A copy equal to `self`.
    pub fn copy(&self) -> (r: Group)
        ensures
            r == *self,
    {
        Group {
            id: self.id.clone(),
            name: self.name.clone(),
            color: copy_opt(&self.color),
            icon: copy_opt(&self.icon),
            expanded: self.expanded,
            order: self.order,
            created_at: self.created_at.clone(),
            updated_at: self.updated_at.clone(),
        }
    }
}

impl AppSettings {
    /// The documented defaults: light theme, saving and notifications on,
    /// a 1200 x 800 window.
    pub open spec fn is_default(&self) -> bool {
        &&& self.theme@ == "light"@
        &&& self.auto_save
        &&& self.show_notifications
        &&& self.window_width == 1200
        &&& self.window_height == 800
    }

    /// A copy equal to `self`.
    pub fn copy(&self) -> (r: AppSettings)
        ensures
            r == *self,
    {
        AppSettings {
            theme: self.theme.clone(),
            auto_save: self.auto_save,
            show_notifications: self.show_notifications,
            window_width: self.window_width,
            window_height: self.window_height,
        }
    }
}

impl Default for AppSettings {
    fn default() -> (r: AppSettings)
        ensures
            r.is_default(),
    {
        AppSettings {
            theme: String::from_str("light"),
            auto_save: true,
            show_notifications: true,
            window_width: 1200,
            window_height: 800,
        }
    }
}

impl AppConfig {
    /// A configuration with no groups, no items, default settings and the
    /// running version, saved at `now`.
    pub open spec fn is_default_at(&self, now: String) -> bool {
        &&& self.groups@.len() == 0
        &&& self.launch_items@.len() == 0
        &&& self.settings.is_default()
        &&& self.version@ == app_version()
        &&& self.last_saved == now
    }

    /// The default configuration, stamped with `now`.
    pub fn default_at(now: String) -> (r: AppConfig)
        ensures
            r.is_default_at(now),
    {
        AppConfig {
            groups: Vec::new(),
            launch_items: Vec::new(),
            settings: AppSettings::default(),
            version: String::from_str(APP_VERSION),
            last_saved: now,
        }
    }
}

impl Default for AppConfig {
    fn default() -> (r: AppConfig)
        ensures
            r.is_default_at(r.last_saved),
    {
        AppConfig::default_at(now_rfc3339())
    }
}

} // verus!
