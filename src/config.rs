use vstd::prelude::*;
use vstd::string::*;
use crate::error::AstroPhiError;

verus! {

/// A device setting that this service reads and writes.
#[derive(Clone, Copy, Debug, PartialEq, Eq, Structural)]
pub enum ConfigObject {
    CaptureTarget,
    ImageFormat,
}

/// A remote request on a device setting.
#[derive(Debug)]
pub enum Config {
    SetValue { object: String, value: String },
    Get { object: String },
}

/// What the camera is asked to do for a setting request.
#[derive(Debug)]
pub enum ConfigStep {
    Read(ConfigObject),
    Write(ConfigObject, String),
}

/// The device's key for a managed object.
pub open spec fn key_of(o: ConfigObject) -> Seq<char> {
    match o {
        ConfigObject::CaptureTarget => "capturetarget"@,
        ConfigObject::ImageFormat => "imageformat"@,
    }
}

/// The managed object that a name denotes; no other name is served.
pub open spec fn object_named(name: Seq<char>) -> Option<ConfigObject> {
    if name == key_of(ConfigObject::CaptureTarget) {
        Some(ConfigObject::CaptureTarget)
    } else if name == key_of(ConfigObject::ImageFormat) {
        Some(ConfigObject::ImageFormat)
    } else {
        None
    }
}

pub open spec fn step_for(object: Seq<char>, make: spec_fn(ConfigObject) -> ConfigStep) -> Result<
    ConfigStep,
    AstroPhiError,
> {
    match object_named(object) {
        Some(o) => Ok(make(o)),
        None => Err(AstroPhiError::Internal),
    }
}

/// The camera step that a request asks for.
pub open spec fn plan_of(req: Config) -> Result<ConfigStep, AstroPhiError> {
    match req {
        Config::SetValue { object, value } => step_for(object@, |o| ConfigStep::Write(o, value)),
        Config::Get { object } => step_for(object@, |o| ConfigStep::Read(o)),
    }
}

/// The confirmation sent for a setting that was written.
pub open spec fn set_reply_of(object: Seq<char>, value: Seq<char>) -> Seq<char> {
    "OK "@ + object + ":"@ + value
}

/// Whether two texts hold the same characters.
fn same_text(a: &str, b: &str) -> (r: bool)
    ensures
        r == (a@ == b@),
{
    let n = a.unicode_len();
    if n != b.unicode_len() {
        return false;
    }
    let mut i: usize = 0;
    while i < n
        invariant
            n == a@.len() == b@.len(),
            i <= n,
            forall|j: int| 0 <= j < i ==> a@[j] == b@[j],
        decreases n - i,
    {
        if a.get_char(i) != b.get_char(i) {
            return false;
        }
        i = i + 1;
    }
    assert(a@ =~= b@);
    true
}

impl ConfigObject {
    /// The device's key for this object.
    pub fn key(&self) -> (r: String)
        ensures
            r@ == key_of(*self),
    {
        match self {
            ConfigObject::CaptureTarget => String::from_str("capturetarget"),
            ConfigObject::ImageFormat => String::from_str("imageformat"),
        }
    }
}

/// The managed object called `name`; any other name is an internal fault.
pub fn managed_object(name: &str) -> (r: Result<ConfigObject, AstroPhiError>)
    ensures
        match object_named(name@) {
            Some(o) => r == Ok::<ConfigObject, AstroPhiError>(o),
            None => r matches Err(AstroPhiError::Internal),
        },
{
    if same_text(name, "capturetarget") {
        Ok(ConfigObject::CaptureTarget)
    } else if same_text(name, "imageformat") {
        Ok(ConfigObject::ImageFormat)
    } else {
        Err(AstroPhiError::Internal)
    }
}

/// The camera step for a request: read for `Get`, write for `SetValue`, each
/// only on a managed object.
pub fn plan_config(req: &Config) -> (r: Result<ConfigStep, AstroPhiError>)
    ensures
        r == plan_of(*req),
{
    match req {
        Config::SetValue { object, value } => match managed_object(object.as_str()) {
            Ok(o) => Ok(ConfigStep::Write(o, value.clone())),
            Err(e) => Err(e),
        },
        Config::Get { object } => match managed_object(object.as_str()) {
            Ok(o) => Ok(ConfigStep::Read(o)),
            Err(e) => Err(e),
        },
    }
}

/// The confirmation `OK <object>:<value>` for a written setting.
pub fn set_reply(object: &str, value: &str) -> (r: String)
    ensures
        r@ == set_reply_of(object@, value@),
{
    let mut r = String::from_str("OK ");
    r.append(object);
    r.append(":");
    r.append(value);
    r
}

/// The two managed settings, as a camera holds them.
#[derive(Clone, Debug)]
pub struct ConfigPair {
    pub capturetarget: String,
    pub imageformat: String,
}

impl ConfigPair {
    pub open spec fn value_of(self, o: ConfigObject) -> String {
        match o {
            ConfigObject::CaptureTarget => self.capturetarget,
            ConfigObject::ImageFormat => self.imageformat,
        }
    }

    pub open spec fn with_value(self, o: ConfigObject, v: String) -> ConfigPair {
        match o {
            ConfigObject::CaptureTarget => ConfigPair { capturetarget: v, ..self },
            ConfigObject::ImageFormat => ConfigPair { imageformat: v, ..self },
        }
    }

    /// The value held for `o`.
    pub fn get(&self, o: ConfigObject) -> (r: String)
        ensures
            r == self.value_of(o),
    {
        match o {
            ConfigObject::CaptureTarget => self.capturetarget.clone(),
            ConfigObject::ImageFormat => self.imageformat.clone(),
        }
    }

    /// Holds `v` for `o` from now on; the other setting stays.
    pub fn set(&mut self, o: ConfigObject, v: String)
        ensures
            *final(self) == old(self).with_value(o, v),
    {
        match o {
            ConfigObject::CaptureTarget => self.capturetarget = v,
            ConfigObject::ImageFormat => self.imageformat = v,
        }
    }
}

/// Against a camera that keeps what it is told, a `SetValue` of a managed object
/// followed by a `Get` of it returns the value that was set.
pub proof fn lemma_set_then_get(camera: ConfigPair, object: String, value: String)
    requires
        object_named(object@) is Some,
    ensures
        plan_of(Config::SetValue { object, value }) matches Ok(ConfigStep::Write(o, v)) && plan_of(
            Config::Get { object },
        ) matches Ok(ConfigStep::Read(p)) && camera.with_value(o, v).value_of(p) == value,
{
}

} // verus!
