//! Connect requests: the reduced-motion preference, the decoded request
//! table, its semantic checks, and the checked borrowed view.
use crate::error::{outcome, ProtocolError};
use crate::framing::{check_framing, spec_framing, FramingFailure};
use crate::host_settings::{spec_decode, HostSettings, HostSettingsTable, HostSettingsView};
use crate::names::{name_bytes, nonempty_unique, sorted_unique, validate_sorted_unique, validate_unique};
use vstd::prelude::*;
use vstd::string::{StringExecFns, StringSliceAdditionalSpecFns};
use vstd::utf8::encode_utf8;

verus! {

/// Host preference for reducing nonessential motion.
#[derive(Clone, Copy, Debug, Eq, PartialEq, Structural)]
pub enum ReducedMotionPreference {
    /// The current host cannot report a preference.
    Unavailable,
    /// The host requests reduced motion.
    Reduce,
    /// The host reports no reduced-motion preference.
    NoPreference,
}

/// The stable schema ordinal of a preference.
pub open spec fn spec_ordinal(value: ReducedMotionPreference) -> u8 {
    match value {
        ReducedMotionPreference::Unavailable => 0,
        ReducedMotionPreference::Reduce => 1,
        ReducedMotionPreference::NoPreference => 2,
    }
}

/// The preference a raw wire ordinal names.
pub open spec fn spec_motion_preference(code: u8) -> Option<ReducedMotionPreference> {
    if code == 0 {
        Some(ReducedMotionPreference::Unavailable)
    } else if code == 1 {
        Some(ReducedMotionPreference::Reduce)
    } else if code == 2 {
        Some(ReducedMotionPreference::NoPreference)
    } else {
        None
    }
}

impl ReducedMotionPreference {
    /// Returns the stable schema ordinal.
    pub fn ordinal(self) -> (r: u8)
        ensures
            r == spec_ordinal(self),
    {
        match self {
            ReducedMotionPreference::Unavailable => 0,
            ReducedMotionPreference::Reduce => 1,
            ReducedMotionPreference::NoPreference => 2,
        }
    }
}

/// Decodes a raw wire preference ordinal.
pub fn motion_preference(code: u8) -> (r: Result<ReducedMotionPreference, ProtocolError>)
    ensures
        match r {
            Ok(p) => spec_motion_preference(code) == Some(p),
            Err(e) => spec_motion_preference(code) is None
                && e@ == "connect request has an unknown reduced-motion value"@,
        },
{
    match code {
        0 => Ok(ReducedMotionPreference::Unavailable),
        1 => Ok(ReducedMotionPreference::Reduce),
        2 => Ok(ReducedMotionPreference::NoPreference),
        _ => Err(ProtocolError::new("connect request has an unknown reduced-motion value")),
    }
}

/// The raw wire ordinal written for a preference.
pub fn wire_motion_preference(value: ReducedMotionPreference) -> (r: u8)
    ensures
        r == spec_ordinal(value),
        spec_motion_preference(r) == Some(value),
{
    match value {
        ReducedMotionPreference::Unavailable => 0,
        ReducedMotionPreference::Reduce => 1,
        ReducedMotionPreference::NoPreference => 2,
    }
}

/// Reading back the ordinal written for a preference gives that preference,
/// and a decoded ordinal is exactly the ordinal of what it decodes to.
pub proof fn lemma_preference_round_trip(p: ReducedMotionPreference, code: u8)
    ensures
        spec_motion_preference(spec_ordinal(p)) == Some(p),
        spec_motion_preference(code) == Some(p) ==> spec_ordinal(p) == code,
        spec_motion_preference(code) is Some <==> code <= 2,
{
}

/// Borrowed values used to construct a connect request directly.
pub struct ConnectInput<'a> {
    /// Initial host capability observation, or unavailable defaults.
    pub host_settings: Option<&'a HostSettings>,
    /// Unity platform name.
    pub platform: &'a str,
    /// Exact Unity editor or player version.
    pub unity_version: &'a str,
    /// Screen width in physical pixels.
    pub screen_width: u32,
    /// Screen height in physical pixels.
    pub screen_height: u32,
    /// Whether the application owns focus.
    pub focused: bool,
    /// Whether Unity has suspended the application.
    pub paused: bool,
    /// Host reduced-motion preference.
    pub reduced_motion_preference: ReducedMotionPreference,
    /// Sorted custom command type names compiled into the build.
    pub custom_command_types: &'a [&'a str],
    /// Selected module identifiers in Inspector order.
    pub modules: &'a [&'a str],
    /// Absolute persistent-data path, when available.
    pub persistent_data_path: Option<&'a str>,
    /// Absolute StreamingAssets path, when available.
    pub streaming_assets_path: Option<&'a str>,
}

/// The wire `ConnectRequest` table as decoded from a buffer.
pub struct ConnectRequest {
    /// Initial host settings table.
    pub host_settings: HostSettingsTable,
    /// Unity platform name.
    pub platform: String,
    /// Unity version.
    pub unity_version: String,
    /// Screen width.
    pub screen_width: u32,
    /// Screen height.
    pub screen_height: u32,
    /// Application focus.
    pub focused: bool,
    /// Application suspension.
    pub paused: bool,
    /// Raw reduced-motion ordinal.
    pub reduced_motion_preference: u8,
    /// Custom command type names.
    pub custom_command_types: Vec<String>,
    /// Module identifiers.
    pub modules: Vec<String>,
    /// Persistent-data path.
    pub persistent_data_path: Option<String>,
    /// StreamingAssets path.
    pub streaming_assets_path: Option<String>,
}

/// The UTF-8 bytes of each owned name.
pub open spec fn string_bytes(names: Seq<String>) -> Seq<Seq<u8>> {
    names.map_values(|s: String| encode_utf8(s@))
}

/// The characters of each owned name.
pub open spec fn string_chars(names: Seq<String>) -> Seq<Seq<char>> {
    names.map_values(|s: String| s@)
}

/// Borrows each owned name.
fn borrow_names(values: &Vec<String>) -> (r: Vec<&str>)
    ensures
        name_bytes(r@) == string_bytes(values@),
        r@.len() == values@.len(),
{
    let mut out: Vec<&str> = Vec::new();
    let mut i: usize = 0;
    while i < values.len()
        invariant
            i <= values@.len(),
            out@.len() == i,
            forall|k: int| 0 <= k < i ==> (#[trigger] out@[k])@ == values@[k]@,
        decreases values@.len() - i,
    {
        out.push(values[i].as_str());
        i += 1;
    }
    assert(name_bytes(out@) =~= string_bytes(values@)) by {
        assert forall|k: int| 0 <= k < out@.len() implies #[trigger] name_bytes(out@)[k] == string_bytes(values@)[k] by {
            assert(out@[k]@ == values@[k]@);
        }
    }
    out
}

/// The semantic checks on the request values shared by reading and writing.
pub open spec fn spec_validate_values(
    platform: Seq<char>,
    unity_version: Seq<char>,
    screen_width: u32,
    screen_height: u32,
    custom_command_types: Seq<Seq<u8>>,
    modules: Seq<Seq<u8>>,
) -> Result<(), Seq<char>> {
    if platform.len() == 0 || unity_version.len() == 0 {
        Err("connect platform and Unity version must be nonempty"@)
    } else if screen_width == 0 || screen_height == 0 {
        Err("connect screen dimensions must be nonzero"@)
    } else if !sorted_unique(custom_command_types) {
        Err("custom command types must be nonempty, sorted, and unique"@)
    } else if !nonempty_unique(modules) {
        Err("modules must be nonempty and unique"@)
    } else {
        Ok(())
    }
}

/// The verdict of the semantic checks on a decoded request.
pub open spec fn spec_validate_request(req: ConnectRequest) -> Result<(), Seq<char>> {
    if req.platform@.len() == 0 || req.unity_version@.len() == 0 {
        Err("connect platform and Unity version must be nonempty"@)
    } else if req.screen_width == 0 || req.screen_height == 0 {
        Err("connect screen dimensions must be nonzero"@)
    } else if spec_decode(req.host_settings) is Err {
        spec_decode(req.host_settings)
    } else if spec_motion_preference(req.reduced_motion_preference) is None {
        Err("connect request has an unknown reduced-motion value"@)
    } else {
        spec_validate_values(
            req.platform@,
            req.unity_version@,
            req.screen_width,
            req.screen_height,
            string_bytes(req.custom_command_types@),
            string_bytes(req.modules@),
        )
    }
}

/// The verdict of the semantic checks on direct-construction input.
pub open spec fn spec_validate_input(input: ConnectInput) -> Result<(), Seq<char>> {
    spec_validate_values(
        input.platform@,
        input.unity_version@,
        input.screen_width,
        input.screen_height,
        name_bytes(input.custom_command_types@),
        name_bytes(input.modules@),
    )
}

/// Checks the name lists of a request.
fn check_names(custom_command_types: &[&str], modules: &[&str]) -> (r: Result<(), ProtocolError>)
    ensures
        match r {
            Ok(()) => sorted_unique(name_bytes(custom_command_types@)) && nonempty_unique(
                name_bytes(modules@),
            ),
            Err(e) => if !sorted_unique(name_bytes(custom_command_types@)) {
                e@ == "custom command types must be nonempty, sorted, and unique"@
            } else {
                !nonempty_unique(name_bytes(modules@)) && e@ == "modules must be nonempty and unique"@
            },
        },
{
    proof {
        reveal_strlit("custom command type");
        reveal_strlit("s must be nonempty, sorted, and unique");
        reveal_strlit("custom command types must be nonempty, sorted, and unique");
        reveal_strlit("module");
        reveal_strlit("s must be nonempty and unique");
        reveal_strlit("modules must be nonempty and unique");
        assert("custom command type"@ + "s must be nonempty, sorted, and unique"@
            =~= "custom command types must be nonempty, sorted, and unique"@);
        assert("module"@ + "s must be nonempty and unique"@ =~= "modules must be nonempty and unique"@);
    }
    validate_sorted_unique(custom_command_types, "custom command type")?;
    validate_unique(modules, "module")
}

/// Checks direct-construction input before a request is written.
pub fn validate_input(input: &ConnectInput) -> (r: Result<(), ProtocolError>)
    ensures
        outcome(r) == spec_validate_input(*input),
{
    if input.platform.is_empty() || input.unity_version.is_empty() {
        return Err(ProtocolError::new("connect platform and Unity version must be nonempty"));
    }
    if input.screen_width == 0 || input.screen_height == 0 {
        return Err(ProtocolError::new("connect screen dimensions must be nonzero"));
    }
    check_names(input.custom_command_types, input.modules)
}

/// Checks one decoded request.
pub fn validate(req: &ConnectRequest) -> (r: Result<(), ProtocolError>)
    ensures
        outcome(r) == spec_validate_request(*req),
{
    if req.platform.as_str().is_empty() || req.unity_version.as_str().is_empty() {
        return Err(ProtocolError::new("connect platform and Unity version must be nonempty"));
    }
    if req.screen_width == 0 || req.screen_height == 0 {
        return Err(ProtocolError::new("connect screen dimensions must be nonzero"));
    }
    crate::host_settings::decode(&req.host_settings)?;
    motion_preference(req.reduced_motion_preference)?;
    let custom = borrow_names(&req.custom_command_types);
    let modules = borrow_names(&req.modules);
    check_names(custom.as_slice(), modules.as_slice())
}

/// The failure text reported for a framing failure of a connect request.
pub open spec fn framing_text(f: FramingFailure) -> Seq<char> {
    match f {
        FramingFailure::TooLarge => "connect request exceeds 16 MiB"@,
        FramingFailure::SizePrefixMismatch => "connect request size prefix does not match its finished range"@,
        FramingFailure::WrongIdentifier => "connect request has the wrong file identifier"@,
    }
}

/// The verdict of reading a connect request from `bytes`, whose tables the
/// FlatBuffers verifier decoded as `decoded` (or refused with that text).
pub open spec fn spec_read(
    bytes: Seq<u8>,
    ident: Seq<u8>,
    decoded: Result<ConnectRequest, String>,
) -> Result<(), Seq<char>> {
    match spec_framing(bytes, ident) {
        Err(f) => Err(framing_text(f)),
        Ok(()) => match decoded {
            Err(detail) => Err("invalid connect FlatBuffer: "@ + detail@),
            Ok(req) => spec_validate_request(req),
        },
    }
}

/// A structurally verified and semantically checked connect request.
pub struct ConnectView {
    host_settings: HostSettingsView,
    platform: String,
    unity_version: String,
    screen_width: u32,
    screen_height: u32,
    focused: bool,
    paused: bool,
    reduced_motion_preference: ReducedMotionPreference,
    custom_command_types: Vec<String>,
    modules: Vec<String>,
    persistent_data_path: Option<String>,
    streaming_assets_path: Option<String>,
}

impl ConnectView {
    /// The view holds exactly the values of the decoded request `req`.
    pub open spec fn holds(&self, req: ConnectRequest) -> bool {
        &&& self.spec_host_settings().table() == req.host_settings
        &&& self.spec_platform() == req.platform@
        &&& self.spec_unity_version() == req.unity_version@
        &&& self.spec_screen_width() == req.screen_width
        &&& self.spec_screen_height() == req.screen_height
        &&& self.spec_focused() == req.focused
        &&& self.spec_paused() == req.paused
        &&& spec_motion_preference(req.reduced_motion_preference) == Some(
            self.spec_reduced_motion_preference(),
        )
        &&& self.spec_custom_command_types() == req.custom_command_types@
        &&& self.spec_modules() == req.modules@
        &&& self.spec_persistent_data_path() == req.persistent_data_path
        &&& self.spec_streaming_assets_path() == req.streaming_assets_path
    }

    /// The platform name.
    pub closed spec fn spec_platform(&self) -> Seq<char> {
        self.platform@
    }

    /// The Unity version.
    pub closed spec fn spec_unity_version(&self) -> Seq<char> {
        self.unity_version@
    }

    /// The screen width.
    pub closed spec fn spec_screen_width(&self) -> u32 {
        self.screen_width
    }

    /// The screen height.
    pub closed spec fn spec_screen_height(&self) -> u32 {
        self.screen_height
    }

    /// Application focus.
    pub closed spec fn spec_focused(&self) -> bool {
        self.focused
    }

    /// Application suspension.
    pub closed spec fn spec_paused(&self) -> bool {
        self.paused
    }

    /// The checked preference.
    pub closed spec fn spec_reduced_motion_preference(&self) -> ReducedMotionPreference {
        self.reduced_motion_preference
    }

    /// The custom command type names.
    pub closed spec fn spec_custom_command_types(&self) -> Seq<String> {
        self.custom_command_types@
    }

    /// The module identifiers.
    pub closed spec fn spec_modules(&self) -> Seq<String> {
        self.modules@
    }

    /// The persistent-data path.
    pub closed spec fn spec_persistent_data_path(&self) -> Option<String> {
        self.persistent_data_path
    }

    /// The StreamingAssets path.
    pub closed spec fn spec_streaming_assets_path(&self) -> Option<String> {
        self.streaming_assets_path
    }

    /// The host settings view.
    pub closed spec fn spec_host_settings(&self) -> HostSettingsView {
        self.host_settings
    }

    /// Verifies the framing of one complete connect request and validates the
    /// tables that the FlatBuffers verifier decoded from it.
    ///
    /// `ident` is the schema's file identifier; `decoded` is what the
    /// verifier produced for `bytes`, or the text of its refusal.
    pub fn read(bytes: &[u8], ident: &str, decoded: Result<ConnectRequest, String>) -> (r: Result<
        Self,
        ProtocolError,
    >)
        requires
            ident.spec_bytes().len() == 4,
        ensures
            match r {
                Ok(view) => spec_read(bytes@, ident.spec_bytes(), decoded) is Ok && decoded is Ok
                    && view.holds(decoded->Ok_0),
                Err(e) => spec_read(bytes@, ident.spec_bytes(), decoded) == Err::<(), Seq<char>>(
                    e@,
                ),
            },
    {
        match check_framing(bytes, ident) {
            Err(FramingFailure::TooLarge) => {
                return Err(ProtocolError::new("connect request exceeds 16 MiB"));
            },
            Err(FramingFailure::SizePrefixMismatch) => {
                return Err(
                    ProtocolError::new(
                        "connect request size prefix does not match its finished range",
                    ),
                );
            },
            Err(FramingFailure::WrongIdentifier) => {
                return Err(ProtocolError::new("connect request has the wrong file identifier"));
            },
            Ok(()) => {},
        }
        let req = match decoded {
            Ok(req) => req,
            Err(detail) => {
                return Err(
                    ProtocolError::from_message(
                        "invalid connect FlatBuffer: ".to_owned().concat(detail.as_str()),
                    ),
                );
            },
        };
        validate(&req)?;
        let ConnectRequest {
            host_settings,
            platform,
            unity_version,
            screen_width,
            screen_height,
            focused,
            paused,
            reduced_motion_preference,
            custom_command_types,
            modules,
            persistent_data_path,
            streaming_assets_path,
        } = req;
        let host_settings = match HostSettingsView::new(host_settings) {
            Ok(view) => view,
            Err(_) => vstd::pervasive::unreached(),
        };
        let reduced_motion_preference = match motion_preference(reduced_motion_preference) {
            Ok(p) => p,
            Err(_) => vstd::pervasive::unreached(),
        };
        Ok(
            ConnectView {
                host_settings,
                platform,
                unity_version,
                screen_width,
                screen_height,
                focused,
                paused,
                reduced_motion_preference,
                custom_command_types,
                modules,
                persistent_data_path,
                streaming_assets_path,
            },
        )
    }

    /// Returns the validated initial host settings snapshot.
    pub fn host_settings(&self) -> (r: &HostSettingsView)
        ensures
            *r == self.spec_host_settings(),
    {
        &self.host_settings
    }

    /// Returns the borrowed Unity platform name.
    pub fn platform(&self) -> (r: &str)
        ensures
            r@ == self.spec_platform(),
    {
        self.platform.as_str()
    }

    /// Returns the borrowed Unity version.
    pub fn unity_version(&self) -> (r: &str)
        ensures
            r@ == self.spec_unity_version(),
    {
        self.unity_version.as_str()
    }

    /// Returns the screen width in physical pixels.
    pub fn screen_width(&self) -> (r: u32)
        ensures
            r == self.spec_screen_width(),
    {
        self.screen_width
    }

    /// Returns the screen height in physical pixels.
    pub fn screen_height(&self) -> (r: u32)
        ensures
            r == self.spec_screen_height(),
    {
        self.screen_height
    }

    /// Returns whether the application owns focus.
    pub fn focused(&self) -> (r: bool)
        ensures
            r == self.spec_focused(),
    {
        self.focused
    }

    /// Returns whether Unity has suspended the application.
    pub fn paused(&self) -> (r: bool)
        ensures
            r == self.spec_paused(),
    {
        self.paused
    }

    /// Returns the validated reduced-motion preference.
    pub fn reduced_motion_preference(&self) -> (r: ReducedMotionPreference)
        ensures
            r == self.spec_reduced_motion_preference(),
    {
        self.reduced_motion_preference
    }

    /// Returns the number of custom command type names.
    pub fn custom_command_type_count(&self) -> (r: usize)
        ensures
            r == self.spec_custom_command_types().len(),
    {
        self.custom_command_types.len()
    }

    /// Returns one borrowed custom command type name.
    pub fn custom_command_type(&self, index: usize) -> (r: Option<&str>)
        ensures
            match r {
                Some(name) => index < self.spec_custom_command_types().len() && name@
                    == self.spec_custom_command_types()[index as int]@,
                None => index >= self.spec_custom_command_types().len(),
            },
    {
        if index < self.custom_command_types.len() {
            Some(self.custom_command_types[index].as_str())
        } else {
            None
        }
    }

    /// Returns the borrowed custom command type names in order.
    pub fn custom_command_types(&self) -> (r: &[String])
        ensures
            r@ == self.spec_custom_command_types(),
    {
        self.custom_command_types.as_slice()
    }

    /// Returns the number of selected modules.
    pub fn module_count(&self) -> (r: usize)
        ensures
            r == self.spec_modules().len(),
    {
        self.modules.len()
    }

    /// Returns one borrowed module identifier.
    pub fn module(&self, index: usize) -> (r: Option<&str>)
        ensures
            match r {
                Some(name) => index < self.spec_modules().len() && name@
                    == self.spec_modules()[index as int]@,
                None => index >= self.spec_modules().len(),
            },
    {
        if index < self.modules.len() {
            Some(self.modules[index].as_str())
        } else {
            None
        }
    }

    /// Returns the borrowed selected module identifiers in order.
    pub fn modules(&self) -> (r: &[String])
        ensures
            r@ == self.spec_modules(),
    {
        self.modules.as_slice()
    }

    /// Returns the borrowed persistent-data path, when available.
    pub fn persistent_data_path(&self) -> (r: Option<&str>)
        ensures
            match (r, self.spec_persistent_data_path()) {
                (None, None) => true,
                (Some(a), Some(b)) => a@ == b@,
                _ => false,
            },
    {
        match &self.persistent_data_path {
            Some(path) => Some(path.as_str()),
            None => None,
        }
    }

    /// Returns the borrowed StreamingAssets path, when available.
    pub fn streaming_assets_path(&self) -> (r: Option<&str>)
        ensures
            match (r, self.spec_streaming_assets_path()) {
                (None, None) => true,
                (Some(a), Some(b)) => a@ == b@,
                _ => false,
            },
    {
        match &self.streaming_assets_path {
            Some(path) => Some(path.as_str()),
            None => None,
        }
    }
}

} // verus!
