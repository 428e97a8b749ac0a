//! Specifiers for hidden-service key storage paths.
//!
//! A hidden service keeps several keys per instance; each key is designated
//! by the service's nickname, a fixed role name, and — for keys that rotate
//! — a time-period denotator.  The functions here render those parts into
//! the path strings and glob patterns under which the keys are stored, with
//! the exact resulting text pinned down in the contracts.

use vstd::prelude::*;

use crate::numfmt::{spec_decimal, u64_to_decimal};

verus! {

/// The nickname of a hidden service: the per-instance identity under which
/// its keys and state are filed.
#[derive(Debug)]
pub struct HsNickname {
    /// The nickname's text.
    s: String,
}

impl View for HsNickname {
    type V = Seq<char>;

    closed spec fn view(&self) -> Seq<char> {
        self.s@
    }
}

impl HsNickname {
    /// Wrap a nickname string.
    pub fn new(s: String) -> (r: HsNickname)
        ensures
            r@ == s@,
    {
        HsNickname { s }
    }

    /// The nickname's text.
    pub fn as_str(&self) -> (r: &str)
        ensures
            r@ == self@,
    {
        self.s.as_str()
    }
}

/// Sealing trait: only types defined in this module implement
/// [`KeyDenotator`] and [`HsSvcKeyRole`].
pub trait Sealed {

}

/// A denotator *denotes* one instance of a rotating key, rendered in a form
/// usable within a key path.
pub trait KeyDenotator: Sealed {
    /// The rendered denotator.
    spec fn spec_display(&self) -> Seq<char>;

    /// Render the denotator for use within a key path.
    fn display(&self) -> (r: String)
        ensures
            r@ == self.spec_display(),
    ;

    /// The glob pattern that matches every rendering.
    spec fn spec_glob() -> Seq<char>;

    /// A glob pattern matching the rendering of every denotator of this
    /// type.
    fn glob() -> (r: String)
        ensures
            r@ == Self::spec_glob(),
    ;
}

/// One period in the rotation schedule of a hidden service's blinded keys,
/// reduced to the three plain values its rendering reads: the period's
/// index, its length in minutes, and its offset from the epoch in seconds.
#[derive(Debug, Clone, Copy, PartialEq, Eq, Structural)]
pub struct TimePeriod {
    /// Which period this is, counting from the epoch.
    interval_num: u64,
    /// The length of each period, in minutes.
    length: u32,
    /// The offset of the schedule from the epoch, in seconds.
    epoch_offset_in_sec: u32,
}

impl TimePeriod {
    /// Which period this is, counting from the epoch.
    pub closed spec fn spec_interval_num(&self) -> u64 {
        self.interval_num
    }

    /// The length of each period, in minutes.
    pub closed spec fn spec_length(&self) -> u32 {
        self.length
    }

    /// The offset of the schedule from the epoch, in seconds.
    pub closed spec fn spec_epoch_offset_in_sec(&self) -> u32 {
        self.epoch_offset_in_sec
    }

    /// Assemble a time period from its index, length in minutes, and epoch
    /// offset in seconds.
    pub fn new(interval_num: u64, length: u32, epoch_offset_in_sec: u32) -> (r: TimePeriod)
        ensures
            r.spec_interval_num() == interval_num,
            r.spec_length() == length,
            r.spec_epoch_offset_in_sec() == epoch_offset_in_sec,
    {
        TimePeriod { interval_num, length, epoch_offset_in_sec }
    }

    /// Which period this is, counting from the epoch.
    pub fn interval_num(&self) -> (r: u64)
        ensures
            r == self.spec_interval_num(),
    {
        self.interval_num
    }

    /// The length of each period, in minutes.
    pub fn length(&self) -> (r: u32)
        ensures
            r == self.spec_length(),
    {
        self.length
    }

    /// The offset of the schedule from the epoch, in seconds.
    pub fn epoch_offset_in_sec(&self) -> (r: u32)
        ensures
            r == self.spec_epoch_offset_in_sec(),
    {
        self.epoch_offset_in_sec
    }
}

impl Sealed for TimePeriod {

}

impl KeyDenotator for TimePeriod {
    /// `<interval>_<length>_<offset>`, each part in decimal.
    open spec fn spec_display(&self) -> Seq<char> {
        spec_decimal(self.spec_interval_num() as nat) + "_"@ + spec_decimal(
            self.spec_length() as nat,
        ) + "_"@ + spec_decimal(self.spec_epoch_offset_in_sec() as nat)
    }

    fn display(&self) -> (r: String) {
        let mut s = u64_to_decimal(self.interval_num);
        s.append("_");
        let l = u64_to_decimal(self.length as u64);
        s.append(l.as_str());
        s.append("_");
        let o = u64_to_decimal(self.epoch_offset_in_sec as u64);
        s.append(o.as_str());
        s
    }

    open spec fn spec_glob() -> Seq<char> {
        "*_*_*"@
    }

    fn glob() -> (r: String) {
        String::from_str("*_*_*")
    }
}

impl Sealed for () {

}

impl KeyDenotator for () {
    /// Keys without rotation have an empty denotator.
    open spec fn spec_display(&self) -> Seq<char> {
        ""@
    }

    fn display(&self) -> (r: String) {
        String::from_str("")
    }

    open spec fn spec_glob() -> Seq<char> {
        ""@
    }

    fn glob() -> (r: String) {
        String::from_str("")
    }
}

/// The role a key plays for its hidden service, together with the type of
/// denotator that distinguishes instances of keys in that role.
pub trait HsSvcKeyRole: Copy + Sealed {
    /// The type of denotator associated with keys in this role.
    type Denotator: KeyDenotator;

    /// The role's fixed name.
    spec fn spec_role_name(&self) -> Seq<char>;

    /// The role's fixed name, as used within key paths.
    fn role_name(&self) -> (r: &'static str)
        ensures
            r@ == self.spec_role_name(),
    ;
}

/// The roles of a hidden service's long-term identity keys, which do not
/// rotate.
#[derive(Debug, Clone, Copy, PartialEq, Eq, Structural)]
#[non_exhaustive]
pub enum HsSvcHsIdKeyRole {
    /// The public part of the identity key of the service.
    HsIdPublicKey,
    /// The long-term identity keypair of the service.
    HsIdKeypair,
}

impl Sealed for HsSvcHsIdKeyRole {

}

impl HsSvcKeyRole for HsSvcHsIdKeyRole {
    type Denotator = ();

    open spec fn spec_role_name(&self) -> Seq<char> {
        match self {
            HsSvcHsIdKeyRole::HsIdPublicKey => "KP_hs_id"@,
            HsSvcHsIdKeyRole::HsIdKeypair => "KS_hs_id"@,
        }
    }

    fn role_name(&self) -> (r: &'static str) {
        match self {
            HsSvcHsIdKeyRole::HsIdPublicKey => "KP_hs_id",
            HsSvcHsIdKeyRole::HsIdKeypair => "KS_hs_id",
        }
    }
}

/// The roles of a hidden service's rotating keys, each instance of which is
/// denoted by a [`TimePeriod`].
#[derive(Debug, Clone, Copy, PartialEq, Eq, Structural)]
#[non_exhaustive]
pub enum HsSvcKeyRoleWithTimePeriod {
    /// The blinded signing keypair.
    BlindIdKeypair,
    /// The public part of the blinded signing keypair.
    BlindIdPublicKey,
    /// The descriptor signing key.
    DescSigningKeypair,
}

impl Sealed for HsSvcKeyRoleWithTimePeriod {

}

impl HsSvcKeyRole for HsSvcKeyRoleWithTimePeriod {
    type Denotator = TimePeriod;

    open spec fn spec_role_name(&self) -> Seq<char> {
        match self {
            HsSvcKeyRoleWithTimePeriod::BlindIdKeypair => "KS_hs_blind_id"@,
            HsSvcKeyRoleWithTimePeriod::BlindIdPublicKey => "KP_hs_blind_id"@,
            HsSvcKeyRoleWithTimePeriod::DescSigningKeypair => "KS_hs_desc_sign"@,
        }
    }

    fn role_name(&self) -> (r: &'static str) {
        match self {
            HsSvcKeyRoleWithTimePeriod::BlindIdKeypair => "KS_hs_blind_id",
            HsSvcKeyRoleWithTimePeriod::BlindIdPublicKey => "KP_hs_blind_id",
            HsSvcKeyRoleWithTimePeriod::DescSigningKeypair => "KS_hs_desc_sign",
        }
    }
}

/// A path under which one key is stored.
#[derive(Debug)]
pub struct ArtiPath {
    /// The path's text.
    s: String,
}

impl View for ArtiPath {
    type V = Seq<char>;

    closed spec fn view(&self) -> Seq<char> {
        self.s@
    }
}

impl ArtiPath {
    /// Wrap a path string.
    pub fn new(s: String) -> (r: ArtiPath)
        ensures
            r@ == s@,
    {
        ArtiPath { s }
    }

    /// The path's text.
    pub fn as_str(&self) -> (r: &str)
        ensures
            r@ == self@,
    {
        self.s.as_str()
    }
}

/// A glob pattern over key paths.
#[derive(Debug)]
pub struct KeyPathPattern {
    /// The pattern's text.
    s: String,
}

impl View for KeyPathPattern {
    type V = Seq<char>;

    closed spec fn view(&self) -> Seq<char> {
        self.s@
    }
}

impl KeyPathPattern {
    /// Wrap a pattern string.
    pub fn new(s: String) -> (r: KeyPathPattern)
        ensures
            r@ == s@,
    {
        KeyPathPattern { s }
    }

    /// The pattern's text.
    pub fn as_str(&self) -> (r: &str)
        ensures
            r@ == self@,
    {
        self.s.as_str()
    }
}

/// The path prefix for the keys of the service `nickname` in `role`:
/// `hs/<nickname>/<role>`.
pub open spec fn spec_arti_path_prefix<R: HsSvcKeyRole>(nickname: Seq<char>, role: R) -> Seq<
    char,
> {
    "hs/"@ + nickname + "/"@ + role.spec_role_name()
}

/// An identifier for a particular instance of a hidden service key: the
/// service's nickname, the key's role, and — for rotating keys — the
/// denotator of the instance.
#[derive(Debug)]
pub struct HsSvcKeySpecifier<'a, R: HsSvcKeyRole> {
    /// The nickname of the hidden service.
    nickname: &'a HsNickname,
    /// The role of this key.
    role: R,
    /// The denotator of this key, for roles whose keys rotate.
    denotator: Option<R::Denotator>,
}

impl<'a, R: HsSvcKeyRole> HsSvcKeySpecifier<'a, R> {
    /// The service's nickname.
    pub closed spec fn spec_nickname(&self) -> Seq<char> {
        self.nickname@
    }

    /// The key's role.
    pub closed spec fn spec_role(&self) -> R {
        self.role
    }

    /// The key's denotator, if any.
    pub closed spec fn spec_denotator(&self) -> Option<R::Denotator> {
        self.denotator
    }

    /// Create a specifier for the service with the given `nickname`, without
    /// a denotator.
    pub fn new(nickname: &'a HsNickname, role: R) -> (r: Self)
        ensures
            r.spec_nickname() == nickname@,
            r.spec_role() == role,
            r.spec_denotator() is None,
    {
        Self { nickname, role, denotator: None }
    }

    /// Create a specifier for the service with the given `nickname`, using
    /// the given `denotators`.
    pub fn with_denotators(nickname: &'a HsNickname, role: R, denotators: R::Denotator) -> (r: Self)
        ensures
            r.spec_nickname() == nickname@,
            r.spec_role() == role,
            r.spec_denotator() == Some(denotators),
    {
        Self { nickname, role, denotator: Some(denotators) }
    }

    /// The prefix of every path for keys of `nickname` in `role`:
    /// `hs/<nickname>/<role>`, without any denotator.
    pub fn arti_path_prefix(nickname: &HsNickname, role: R) -> (r: String)
        ensures
            r@ == spec_arti_path_prefix(nickname@, role),
    {
        let mut s = String::from_str("hs/");
        s.append(nickname.as_str());
        s.append("/");
        s.append(role.role_name());
        s
    }

    /// A pattern matching the paths of every key of `nickname` in `role`:
    /// the prefix, `_`, and the denotator glob.
    pub fn arti_pattern(nickname: &HsNickname, role: R) -> (r: KeyPathPattern)
        ensures
            r@ == spec_arti_path_prefix(nickname@, role) + "_"@ + R::Denotator::spec_glob(),
    {
        let mut s = Self::arti_path_prefix(nickname, role);
        s.append("_");
        let glob = R::Denotator::glob();
        s.append(glob.as_str());
        KeyPathPattern::new(s)
    }

    /// The path under which this key is stored: the prefix alone for keys
    /// without a denotator, else the prefix, `_`, and the rendered
    /// denotator.
    pub fn arti_path(&self) -> (r: ArtiPath)
        ensures
            self.spec_denotator() matches Some(d) ==> r@ == spec_arti_path_prefix(
                self.spec_nickname(),
                self.spec_role(),
            ) + "_"@ + d.spec_display(),
            self.spec_denotator() is None ==> r@ == spec_arti_path_prefix(
                self.spec_nickname(),
                self.spec_role(),
            ),
    {
        let prefix = Self::arti_path_prefix(self.nickname, self.role);
        match &self.denotator {
            Some(meta) => {
                let mut s = prefix;
                s.append("_");
                let d = meta.display();
                s.append(d.as_str());
                ArtiPath::new(s)
            },
            None => ArtiPath::new(prefix),
        }
    }
}

} // verus!
