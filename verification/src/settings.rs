//! The service's configuration.
//!
//! There is one configuration record. An administrator changes it through a
//! form whose fields arrive as text: a field that holds an acceptable value
//! replaces the stored one, and any other field is passed over, so that one
//! bad value never costs the rest of the form.

use crate::number::{integer_in, parse_integer};
use crate::text::same_text;
use vstd::prelude::*;
use vstd::string::StringExecFns;

verus! {

/// What happens to an upload once it has expired.
#[derive(Debug, Clone, Copy, PartialEq, Eq, Structural)]
pub enum ExpirationAction {
    /// Its files are removed and the record is marked as deleted.
    Delete,
    /// It is withdrawn from everybody but its owner; nothing is removed.
    Unavailable,
}

/// How a configuration record reaches the store.
#[derive(Debug, Clone, Copy, PartialEq, Eq, Structural)]
pub enum SaveMode {
    /// No record exists yet: one is created.
    Insert,
    /// The existing record is updated in place.
    Update,
}

/// The configuration record.
#[derive(Debug, Clone, PartialEq, Eq)]
pub struct Settings {
    pub id: i32,
    pub theme: String,
    pub logo_path: Option<String>,
    pub background_path: Option<String>,
    pub navbar_title: String,
    pub max_upload_size: i64,
    pub blur_intensity: i32,
    pub max_validity: String,
    pub allow_registration: bool,
    pub expiration_action: String,
}

/// The configuration record as plain values.
pub struct SettingsView {
    pub id: int,
    pub theme: Seq<char>,
    pub logo_path: Option<Seq<char>>,
    pub background_path: Option<Seq<char>>,
    pub navbar_title: Seq<char>,
    pub max_upload_size: int,
    pub blur_intensity: int,
    pub max_validity: Seq<char>,
    pub allow_registration: bool,
    pub expiration_action: Seq<char>,
}

/// The characters of an optional string.
pub open spec fn optional_text(s: Option<String>) -> Option<Seq<char>> {
    match s {
        Some(t) => Some(t@),
        None => None,
    }
}

impl View for Settings {
    type V = SettingsView;

    open spec fn view(&self) -> SettingsView {
        SettingsView {
            id: self.id as int,
            theme: self.theme@,
            logo_path: optional_text(self.logo_path),
            background_path: optional_text(self.background_path),
            navbar_title: self.navbar_title@,
            max_upload_size: self.max_upload_size as int,
            blur_intensity: self.blur_intensity as int,
            max_validity: self.max_validity@,
            allow_registration: self.allow_registration,
            expiration_action: self.expiration_action@,
        }
    }
}

/// The fields of a submitted form, each as the text that was sent for it, if
/// any was.
#[derive(Debug, Clone, PartialEq, Eq)]
pub struct SettingsForm {
    pub theme: Option<String>,
    pub navbar_title: Option<String>,
    pub max_validity: Option<String>,
    pub max_upload_size: Option<String>,
    pub blur_intensity: Option<String>,
    pub allow_registration: Option<String>,
    pub expiration_action: Option<String>,
}

/// A submitted form as plain values.
pub struct SettingsFormView {
    pub theme: Option<Seq<char>>,
    pub navbar_title: Option<Seq<char>>,
    pub max_validity: Option<Seq<char>>,
    pub max_upload_size: Option<Seq<char>>,
    pub blur_intensity: Option<Seq<char>>,
    pub allow_registration: Option<Seq<char>>,
    pub expiration_action: Option<Seq<char>>,
}

impl View for SettingsForm {
    type V = SettingsFormView;

    open spec fn view(&self) -> SettingsFormView {
        SettingsFormView {
            theme: optional_text(self.theme),
            navbar_title: optional_text(self.navbar_title),
            max_validity: optional_text(self.max_validity),
            max_upload_size: optional_text(self.max_upload_size),
            blur_intensity: optional_text(self.blur_intensity),
            allow_registration: optional_text(self.allow_registration),
            expiration_action: optional_text(self.expiration_action),
        }
    }
}

/// The largest blur that can be configured.
pub const MAX_BLUR: i32 = 24;

/// The periods for which an upload may stay valid.
pub open spec fn is_validity(s: Seq<char>) -> bool {
    s == "7days"@ || s == "1month"@ || s == "6months"@ || s == "1year"@ || s == "never"@
}

/// The two names of an expiration action.
pub open spec fn is_action_name(s: Seq<char>) -> bool {
    s == "delete"@ || s == "unavailable"@
}

/// The action that a stored name stands for. A name that is not recognized
/// stands for the reversible action.
pub open spec fn action_named(s: Seq<char>) -> ExpirationAction {
    if s == "delete"@ {
        ExpirationAction::Delete
    } else {
        ExpirationAction::Unavailable
    }
}

/// The action in force: that of the record, or the reversible one where no
/// record exists.
pub open spec fn action_in_force(settings: Option<SettingsView>) -> ExpirationAction {
    match settings {
        Some(s) => action_named(s.expiration_action),
        None => ExpirationAction::Unavailable,
    }
}

/// The truth value that a text writes: `true` or `false`, spelled exactly so.
pub open spec fn boolean_value(s: Seq<char>) -> Option<bool> {
    if s == "true"@ {
        Some(true)
    } else if s == "false"@ {
        Some(false)
    } else {
        None
    }
}

/// The size in bytes that a text writes: a decimal number that is not
/// negative.
pub open spec fn size_value(s: Seq<char>) -> Option<int> {
    integer_in(s, 0, i64::MAX as int)
}

/// The blur that a text writes: a decimal number from 0 to 24.
pub open spec fn blur_value(s: Seq<char>) -> Option<int> {
    integer_in(s, 0, MAX_BLUR as int)
}

/// The record that is used while none is stored.
pub open spec fn initial_settings() -> SettingsView {
    SettingsView {
        id: 0,
        theme: "light"@,
        logo_path: None,
        background_path: None,
        navbar_title: "PinGO"@,
        max_upload_size: 104857600,
        blur_intensity: 0,
        max_validity: "7days"@,
        allow_registration: true,
        expiration_action: "unavailable"@,
    }
}

/// The invariant of a configuration record: the blur is in range, the
/// validity is one of the known periods and the action has one of its two
/// names.
pub open spec fn well_formed(s: SettingsView) -> bool {
    &&& 0 <= s.blur_intensity <= MAX_BLUR
    &&& is_validity(s.max_validity)
    &&& is_action_name(s.expiration_action)
}

/// A text field after a submission: a submitted text that is not empty
/// replaces the current one.
pub open spec fn replaced_text(current: Seq<char>, submitted: Option<Seq<char>>) -> Seq<char> {
    match submitted {
        Some(t) => if t.len() > 0 {
            t
        } else {
            current
        },
        None => current,
    }
}

/// A field after a submission that must pass a test: a submitted text that
/// passes replaces the current one.
pub open spec fn replaced_if(
    current: Seq<char>,
    submitted: Option<Seq<char>>,
    accepts: spec_fn(Seq<char>) -> bool,
) -> Seq<char> {
    match submitted {
        Some(t) => if accepts(t) {
            t
        } else {
            current
        },
        None => current,
    }
}

/// A numeric field after a submission: a submitted text that writes an
/// acceptable number replaces the current one.
pub open spec fn replaced_number(
    current: int,
    submitted: Option<Seq<char>>,
    reads: spec_fn(Seq<char>) -> Option<int>,
) -> int {
    match submitted {
        Some(t) => match reads(t) {
            Some(v) => v,
            None => current,
        },
        None => current,
    }
}

/// The registration switch after a submission.
pub open spec fn replaced_switch(current: bool, submitted: Option<Seq<char>>) -> bool {
    match submitted {
        Some(t) => match boolean_value(t) {
            Some(v) => v,
            None => current,
        },
        None => current,
    }
}

/// The record after a form has been applied to it. The identifier and the
/// asset paths are not part of the form.
pub open spec fn applied(s: SettingsView, form: SettingsFormView) -> SettingsView {
    SettingsView {
        id: s.id,
        theme: replaced_text(s.theme, form.theme),
        logo_path: s.logo_path,
        background_path: s.background_path,
        navbar_title: replaced_text(s.navbar_title, form.navbar_title),
        max_upload_size: replaced_number(
            s.max_upload_size,
            form.max_upload_size,
            |t: Seq<char>| size_value(t),
        ),
        blur_intensity: replaced_number(
            s.blur_intensity,
            form.blur_intensity,
            |t: Seq<char>| blur_value(t),
        ),
        max_validity: replaced_if(s.max_validity, form.max_validity, |t: Seq<char>| is_validity(t)),
        allow_registration: replaced_switch(s.allow_registration, form.allow_registration),
        expiration_action: replaced_if(
            s.expiration_action,
            form.expiration_action,
            |t: Seq<char>| is_action_name(t),
        ),
    }
}

/// The form after the field called `field` has been given `value`. Names
/// that the form does not know change nothing.
pub open spec fn recorded(form: SettingsFormView, field: Seq<char>, value: Seq<char>)
    -> SettingsFormView {
    if field == "theme"@ {
        SettingsFormView { theme: Some(value), ..form }
    } else if field == "navbarTitle"@ {
        SettingsFormView { navbar_title: Some(value), ..form }
    } else if field == "maxValidity"@ {
        SettingsFormView { max_validity: Some(value), ..form }
    } else if field == "maxUploadSize"@ {
        SettingsFormView { max_upload_size: Some(value), ..form }
    } else if field == "blurIntensity"@ {
        SettingsFormView { blur_intensity: Some(value), ..form }
    } else if field == "allowRegistration"@ {
        SettingsFormView { allow_registration: Some(value), ..form }
    } else if field == "expirationAction"@ {
        SettingsFormView { expiration_action: Some(value), ..form }
    } else {
        form
    }
}

/// Whether `s` names a validity period.
pub fn validity_known(s: &str) -> (r: bool)
    ensures
        r == is_validity(s@),
{
    same_text(s, "7days") || same_text(s, "1month") || same_text(s, "6months") || same_text(
        s,
        "1year",
    ) || same_text(s, "never")
}

/// Whether `s` names an expiration action.
pub fn action_known(s: &str) -> (r: bool)
    ensures
        r == is_action_name(s@),
{
    same_text(s, "delete") || same_text(s, "unavailable")
}

/// The expiration action that `s` names; the reversible one for any other
/// text.
pub fn parse_expiration_action(s: &str) -> (r: ExpirationAction)
    ensures
        r == action_named(s@),
{
    if same_text(s, "delete") {
        ExpirationAction::Delete
    } else {
        ExpirationAction::Unavailable
    }
}

/// The expiration action in force, given the stored record if there is one.
pub fn expiration_policy(settings: Option<&Settings>) -> (r: ExpirationAction)
    ensures
        r == action_in_force(
            match settings {
                Some(s) => Some(s@),
                None => None,
            },
        ),
{
    match settings {
        Some(s) => parse_expiration_action(s.expiration_action.as_str()),
        None => ExpirationAction::Unavailable,
    }
}

/// Reads `true` or `false`.
pub fn parse_boolean(s: &str) -> (r: Option<bool>)
    ensures
        r == boolean_value(s@),
{
    if same_text(s, "true") {
        Some(true)
    } else if same_text(s, "false") {
        Some(false)
    } else {
        None
    }
}

/// Reads a size in bytes.
pub fn parse_size(s: &str) -> (r: Option<i64>)
    ensures
        match r {
            Some(v) => size_value(s@) == Some(v as int),
            None => size_value(s@) is None,
        },
{
    parse_integer(s, 0, i64::MAX)
}

/// Reads a blur intensity.
pub fn parse_blur(s: &str) -> (r: Option<i32>)
    ensures
        match r {
            Some(v) => blur_value(s@) == Some(v as int),
            None => blur_value(s@) is None,
        },
{
    match parse_integer(s, 0, 24) {
        Some(v) => Some(v as i32),
        None => None,
    }
}

impl Default for Settings {
    /// The record that is used while none is stored.
    fn default() -> (s: Self)
        ensures
            s@ == initial_settings(),
            well_formed(s@),
    {
        Settings {
            id: 0,
            theme: String::from_str("light"),
            logo_path: None,
            background_path: None,
            navbar_title: String::from_str("PinGO"),
            max_upload_size: 104857600,
            blur_intensity: 0,
            max_validity: String::from_str("7days"),
            allow_registration: true,
            expiration_action: String::from_str("unavailable"),
        }
    }
}

impl Settings {
    /// Whether the record has to be created or updated: a record that was
    /// never stored has the identifier 0.
    pub fn save_mode(&self) -> (r: SaveMode)
        ensures
            r == (if self.id == 0 {
                SaveMode::Insert
            } else {
                SaveMode::Update
            }),
    {
        if self.id == 0 {
            SaveMode::Insert
        } else {
            SaveMode::Update
        }
    }

    /// Applies a submitted form: each field that holds an acceptable value
    /// replaces the stored one, every other field keeps its value.
    pub fn apply_form(&mut self, form: &SettingsForm)
        ensures
            final(self)@ == applied(old(self)@, form@),
            well_formed(old(self)@) ==> well_formed(final(self)@),
    {
        match &form.theme {
            Some(t) => {
                if !t.as_str().is_empty() {
                    self.theme = t.clone();
                }
            },
            None => {},
        }
        match &form.navbar_title {
            Some(t) => {
                if !t.as_str().is_empty() {
                    self.navbar_title = t.clone();
                }
            },
            None => {},
        }
        match &form.max_validity {
            Some(t) => {
                if validity_known(t.as_str()) {
                    self.max_validity = t.clone();
                }
            },
            None => {},
        }
        match &form.max_upload_size {
            Some(t) => {
                match parse_size(t.as_str()) {
                    Some(v) => {
                        self.max_upload_size = v;
                    },
                    None => {},
                }
            },
            None => {},
        }
        match &form.blur_intensity {
            Some(t) => {
                match parse_blur(t.as_str()) {
                    Some(v) => {
                        self.blur_intensity = v;
                    },
                    None => {},
                }
            },
            None => {},
        }
        match &form.allow_registration {
            Some(t) => {
                match parse_boolean(t.as_str()) {
                    Some(v) => {
                        self.allow_registration = v;
                    },
                    None => {},
                }
            },
            None => {},
        }
        match &form.expiration_action {
            Some(t) => {
                if action_known(t.as_str()) {
                    self.expiration_action = t.clone();
                }
            },
            None => {},
        }
    }
}

impl SettingsForm {
    /// A form in which no field was sent.
    pub fn new() -> (form: Self)
        ensures
            form@ == (SettingsFormView {
                theme: None,
                navbar_title: None,
                max_validity: None,
                max_upload_size: None,
                blur_intensity: None,
                allow_registration: None,
                expiration_action: None,
            }),
    {
        SettingsForm {
            theme: None,
            navbar_title: None,
            max_validity: None,
            max_upload_size: None,
            blur_intensity: None,
            allow_registration: None,
            expiration_action: None,
        }
    }

    /// Records the text sent for the field called `field`. A later value
    /// for a field replaces an earlier one.
    pub fn set(&mut self, field: &str, value: String)
        ensures
            final(self)@ == recorded(old(self)@, field@, value@),
    {
        if same_text(field, "theme") {
            self.theme = Some(value);
        } else if same_text(field, "navbarTitle") {
            self.navbar_title = Some(value);
        } else if same_text(field, "maxValidity") {
            self.max_validity = Some(value);
        } else if same_text(field, "maxUploadSize") {
            self.max_upload_size = Some(value);
        } else if same_text(field, "blurIntensity") {
            self.blur_intensity = Some(value);
        } else if same_text(field, "allowRegistration") {
            self.allow_registration = Some(value);
        } else if same_text(field, "expirationAction") {
            self.expiration_action = Some(value);
        }
    }
}

} // verus!
