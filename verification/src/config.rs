//! The backend configuration: which files and folders are synchronized
//! between instances, whether game output opens on launch, and the network
//! proxy settings with their URL form.

use vstd::prelude::*;
use vstd::string::{StringExecFns, StringSliceAdditionalSpecFns};
use vstd::utf8::{decode_utf8, encode_utf8};

verus! {

broadcast use vstd::utf8::encode_utf8_decode_utf8, vstd::slice::axiom_slice_get_usize;

/// The persisted backend configuration.
#[derive(Debug, Clone)]
pub struct BackendConfig {
    pub sync_targets: SyncTargets,
    pub dont_open_game_output_when_launching: bool,
    pub proxy: ProxyConfig,
}

/// The network proxy settings. A proxy URL can be formed only when the proxy
/// is enabled and a host is set.
#[derive(Debug, Clone)]
pub struct ProxyConfig {
    pub enabled: bool,
    pub protocol: ProxyProtocol,
    pub host: String,
    pub port: u16,
    pub auth_enabled: bool,
    pub username: String,
}

/// The protocol a proxy speaks.
#[derive(Debug, Clone, Copy, PartialEq, Eq, Structural)]
pub enum ProxyProtocol {
    Http,
    Https,
    Socks5,
}

impl Default for ProxyProtocol {
    /// The default protocol is plain HTTP.
    fn default() -> (r: Self)
        ensures
            r is Http,
    {
        ProxyProtocol::Http
    }
}

fn bytes_eq(a: &[u8], b: &[u8]) -> (r: bool)
    ensures
        r == (a@ == b@),
{
    if a.len() != b.len() {
        proof {
            assert(a@.len() != b@.len());
        }
        return false;
    }
    let mut i: usize = 0;
    while i < a.len()
        invariant
            i <= a@.len(),
            a@.len() == b@.len(),
            forall|j: int| 0 <= j < i ==> a@[j] == b@[j],
        decreases a@.len() - i,
    {
        let x = match a.get(i) {
            Some(v) => *v,
            None => 0u8,
        };
        let y = match b.get(i) {
            Some(v) => *v,
            None => 0u8,
        };
        if x != y {
            return false;
        }
        i = i + 1;
    }
    proof {
        assert(a@ =~= b@);
    }
    true
}

fn str_eq(a: &str, b: &str) -> (r: bool)
    ensures
        r == (a@ == b@),
{
    let r = bytes_eq(a.as_bytes(), b.as_bytes());
    proof {
        assert(decode_utf8(encode_utf8(a@)) == a@);
        assert(decode_utf8(encode_utf8(b@)) == b@);
    }
    r
}

impl ProxyProtocol {
    /// The URL scheme of this protocol.
    pub open spec fn spec_scheme(self) -> Seq<char> {
        match self {
            ProxyProtocol::Http => "http"@,
            ProxyProtocol::Https => "https"@,
            ProxyProtocol::Socks5 => "socks5"@,
        }
    }

    /// The display name of this protocol.
    pub open spec fn spec_name(self) -> Seq<char> {
        match self {
            ProxyProtocol::Http => "HTTP"@,
            ProxyProtocol::Https => "HTTPS"@,
            ProxyProtocol::Socks5 => "SOCKS5"@,
        }
    }

    pub fn scheme(&self) -> (r: &'static str)
        ensures
            r@ == self.spec_scheme(),
    {
        match self {
            ProxyProtocol::Http => "http",
            ProxyProtocol::Https => "https",
            ProxyProtocol::Socks5 => "socks5",
        }
    }

    pub fn name(&self) -> (r: &'static str)
        ensures
            r@ == self.spec_name(),
    {
        match self {
            ProxyProtocol::Http => "HTTP",
            ProxyProtocol::Https => "HTTPS",
            ProxyProtocol::Socks5 => "SOCKS5",
        }
    }

    /// The protocol with the given display name; an unknown name falls back
    /// to HTTP.
    pub fn from_name(name: &str) -> (r: Self)
        ensures
            r == if name@ == "HTTP"@ {
                ProxyProtocol::Http
            } else if name@ == "HTTPS"@ {
                ProxyProtocol::Https
            } else if name@ == "SOCKS5"@ {
                ProxyProtocol::Socks5
            } else {
                ProxyProtocol::Http
            },
    {
        if str_eq(name, "HTTP") {
            ProxyProtocol::Http
        } else if str_eq(name, "HTTPS") {
            ProxyProtocol::Https
        } else if str_eq(name, "SOCKS5") {
            ProxyProtocol::Socks5
        } else {
            ProxyProtocol::Http
        }
    }
}

/// The set of files and folders synchronized between instances, by name.
#[derive(Debug, Clone)]
pub struct SyncTargets {
    pub files: Vec<String>,
    pub folders: Vec<String>,
}

/// Whether a sync-target set is the default one: nothing synchronized.
pub fn is_default_sync_targets(sync_targets: &SyncTargets) -> (r: bool)
    ensures
        r == (sync_targets.files@.len() == 0 && sync_targets.folders@.len() == 0),
{
    sync_targets.files.len() == 0 && sync_targets.folders.len() == 0
}

impl Default for SyncTargets {
    /// By default nothing is synchronized.
    fn default() -> (r: Self)
        ensures
            r.files@.len() == 0,
            r.folders@.len() == 0,
    {
        SyncTargets { files: Vec::new(), folders: Vec::new() }
    }
}

impl Default for ProxyConfig {
    /// By default the proxy is disabled and empty: plain HTTP, no host, port
    /// zero, no authentication.
    fn default() -> (r: Self)
        ensures
            !r.enabled,
            r.protocol is Http,
            r.host@.len() == 0,
            r.port == 0,
            !r.auth_enabled,
            r.username@.len() == 0,
    {
        ProxyConfig {
            enabled: false,
            protocol: ProxyProtocol::Http,
            host: String::new(),
            port: 0,
            auth_enabled: false,
            username: String::new(),
        }
    }
}

impl Default for BackendConfig {
    /// By default nothing is synchronized, game output opens on launch, and
    /// no proxy is configured.
    fn default() -> (r: Self)
        ensures
            r.sync_targets.files@.len() == 0,
            r.sync_targets.folders@.len() == 0,
            !r.dont_open_game_output_when_launching,
            !r.proxy.enabled,
    {
        BackendConfig {
            sync_targets: SyncTargets::default(),
            dont_open_game_output_when_launching: false,
            proxy: ProxyConfig::default(),
        }
    }
}

/// The decimal digit character for a value below ten.
pub open spec fn spec_digit_char(d: int) -> char {
    if d == 0 {
        '0'
    } else if d == 1 {
        '1'
    } else if d == 2 {
        '2'
    } else if d == 3 {
        '3'
    } else if d == 4 {
        '4'
    } else if d == 5 {
        '5'
    } else if d == 6 {
        '6'
    } else if d == 7 {
        '7'
    } else if d == 8 {
        '8'
    } else {
        '9'
    }
}

/// The usual decimal notation of a non-negative number, without leading
/// zeros.
pub open spec fn spec_decimal(n: int) -> Seq<char>
    recommends
        n >= 0,
    decreases n,
{
    if n < 10 {
        seq![spec_digit_char(n)]
    } else {
        spec_decimal(n / 10) + seq![spec_digit_char(n % 10)]
    }
}

fn digit_str(d: u16) -> (r: &'static str)
    requires
        d < 10,
    ensures
        r@ =~= seq![spec_digit_char(d as int)],
{
    proof {
        reveal_strlit("0");
        reveal_strlit("1");
        reveal_strlit("2");
        reveal_strlit("3");
        reveal_strlit("4");
        reveal_strlit("5");
        reveal_strlit("6");
        reveal_strlit("7");
        reveal_strlit("8");
        reveal_strlit("9");
    }
    match d {
        0 => "0",
        1 => "1",
        2 => "2",
        3 => "3",
        4 => "4",
        5 => "5",
        6 => "6",
        7 => "7",
        8 => "8",
        _ => "9",
    }
}

/// Writes a port number in decimal.
pub fn u16_to_decimal(n: u16) -> (r: String)
    ensures
        r@ == spec_decimal(n as int),
    decreases n,
{
    let d = digit_str(n % 10);
    if n < 10 {
        String::from_str(d)
    } else {
        u16_to_decimal(n / 10).concat(d)
    }
}

/// A byte kept verbatim by percent-encoding: an ASCII alphanumeric or one
/// of `-`, `.`, `_`, `~`.
pub open spec fn url_keep_byte(b: u8) -> bool {
    (48 <= b <= 57) || (65 <= b <= 90) || (97 <= b <= 122) || b == 45 || b == 46 || b == 95
        || b == 126
}

/// The uppercase hexadecimal digit character for a value below sixteen.
pub open spec fn spec_hex_char(d: int) -> char {
    if d < 10 {
        spec_digit_char(d)
    } else if d == 10 {
        'A'
    } else if d == 11 {
        'B'
    } else if d == 12 {
        'C'
    } else if d == 13 {
        'D'
    } else if d == 14 {
        'E'
    } else {
        'F'
    }
}

/// The percent-encoding of one byte: kept bytes stand as themselves, every
/// other byte becomes a percent sign and two uppercase hex digits.
pub open spec fn url_encode_byte(b: u8) -> Seq<char> {
    if url_keep_byte(b) {
        seq![b as char]
    } else {
        seq!['%', spec_hex_char(b as int / 16), spec_hex_char(b as int % 16)]
    }
}

/// The percent-encoding of a byte sequence.
pub open spec fn url_encode_bytes(bs: Seq<u8>) -> Seq<char>
    decreases bs.len(),
{
    if bs.len() == 0 {
        Seq::empty()
    } else {
        url_encode_byte(bs[0]) + url_encode_bytes(bs.drop_first())
    }
}

/// The percent-encoding of a string: its UTF-8 bytes, each kept or escaped.
pub open spec fn spec_url_encoded(s: Seq<char>) -> Seq<char> {
    url_encode_bytes(encode_utf8(s))
}

/// Relies on urlencoding::encode: percent-encodes every UTF-8 byte of the
/// input except ASCII alphanumerics and `-`, `_`, `.`, `~`, with uppercase
/// hex digits.
#[verifier::external_body]
fn url_encode(s: &str) -> (r: String)
    ensures
        r@ == spec_url_encoded(s@),
{
    urlencoding::encode(s).into_owned()
}

/// The authority-and-host part of a proxy URL at and after the `://`.
pub open spec fn spec_proxy_tail(p: ProxyConfig, password: Option<Seq<char>>) -> Seq<char> {
    let hostport = p.host@ + ":"@ + spec_decimal(p.port as int);
    if p.auth_enabled && p.username@.len() > 0 {
        let pw = match password {
            Some(s) => s,
            None => Seq::empty(),
        };
        spec_url_encoded(p.username@) + ":"@ + spec_url_encoded(pw) + "@"@ + hostport
    } else {
        hostport
    }
}

/// The URL of a configured proxy: scheme, then user-info when
/// authentication is on and a username is set, then host and port.
pub open spec fn spec_proxy_url(p: ProxyConfig, password: Option<Seq<char>>) -> Seq<char> {
    p.protocol.spec_scheme() + "://"@ + spec_proxy_tail(p, password)
}

impl ProxyConfig {
    /// Forms the proxy URL, exactly when the proxy is enabled and a host is
    /// set. The username and the password are percent-encoded; a missing
    /// password stands as empty. The user-info part appears exactly when
    /// authentication is enabled and the username is non-empty.
    pub fn to_url(&self, password: Option<&str>) -> (r: Option<String>)
        ensures
            (r is Some) == (self.enabled && self.host@.len() > 0),
            r matches Some(url) ==> url@ == spec_proxy_url(
                *self,
                match password {
                    Some(p) => Some(p@),
                    None => None,
                },
            ),
    {
        if !self.enabled || self.host.as_str().is_empty() {
            return None;
        }

        let scheme = self.protocol.scheme();
        let mut url = String::from_str(scheme);
        url.append("://");

        if self.auth_enabled && !self.username.as_str().is_empty() {
            let pw: &str = match password {
                Some(p) => p,
                None => "",
            };
            proof {
                reveal_strlit("");
                assert(""@ =~= Seq::<char>::empty());
            }
            let encoded_user = url_encode(self.username.as_str());
            let encoded_pw = url_encode(pw);
            url.append(encoded_user.as_str());
            url.append(":");
            url.append(encoded_pw.as_str());
            url.append("@");
        }
        url.append(self.host.as_str());
        url.append(":");
        let port = u16_to_decimal(self.port);
        url.append(port.as_str());
        proof {
            assert(url@ =~= spec_proxy_url(
                *self,
                match password {
                    Some(p) => Some(p@),
                    None => None,
                },
            ));
        }
        Some(url)
    }
}

/// The sync targets of the earlier configuration format, which stored them
/// as a bitmask; kept to migrate old configurations.
#[derive(Debug, Clone, Copy, PartialEq, Eq, Structural)]
pub enum LegacySyncTarget {
    Options,
    Servers,
    Commands,
    Hotbars,
    Saves,
    Config,
    Screenshots,
    Resourcepacks,
    Shaderpacks,
    Flashback,
    DistantHorizons,
    Voxy,
    XaerosMinimap,
    Bobby,
    Litematic,
}

/// How many bits the legacy bitmask uses.
pub const LEGACY_SYNC_TARGET_BITS: u32 = 15;

impl LegacySyncTarget {
    /// The name this legacy target carries in the current format, and
    /// whether it names a file (true) or a folder (false).
    pub open spec fn spec_new_target(self) -> (Seq<char>, bool) {
        match self {
            LegacySyncTarget::Options => ("options.txt"@, true),
            LegacySyncTarget::Servers => ("servers.dat"@, true),
            LegacySyncTarget::Commands => ("command_history.txt"@, true),
            LegacySyncTarget::Hotbars => ("hotbar.nbt"@, true),
            LegacySyncTarget::Saves => ("saves"@, false),
            LegacySyncTarget::Config => ("config"@, false),
            LegacySyncTarget::Screenshots => ("screenshots"@, false),
            LegacySyncTarget::Resourcepacks => ("resourcepacks"@, false),
            LegacySyncTarget::Shaderpacks => ("shaderpacks"@, false),
            LegacySyncTarget::Flashback => ("flashback"@, false),
            LegacySyncTarget::DistantHorizons => ("Distant_Horizons_server_data"@, false),
            LegacySyncTarget::Voxy => (".voxy"@, false),
            LegacySyncTarget::XaerosMinimap => ("xaero"@, false),
            LegacySyncTarget::Bobby => (".bobby"@, false),
            LegacySyncTarget::Litematic => ("schematics"@, false),
        }
    }

    /// The file or folder name of this target in the current format, and
    /// whether it is a file.
    pub fn get_new_target(self) -> (r: (&'static str, bool))
        ensures
            r.0@ == self.spec_new_target().0,
            r.1 == self.spec_new_target().1,
    {
        match self {
            LegacySyncTarget::Options => ("options.txt", true),
            LegacySyncTarget::Servers => ("servers.dat", true),
            LegacySyncTarget::Commands => ("command_history.txt", true),
            LegacySyncTarget::Hotbars => ("hotbar.nbt", true),
            LegacySyncTarget::Saves => ("saves", false),
            LegacySyncTarget::Config => ("config", false),
            LegacySyncTarget::Screenshots => ("screenshots", false),
            LegacySyncTarget::Resourcepacks => ("resourcepacks", false),
            LegacySyncTarget::Shaderpacks => ("shaderpacks", false),
            LegacySyncTarget::Flashback => ("flashback", false),
            LegacySyncTarget::DistantHorizons => ("Distant_Horizons_server_data", false),
            LegacySyncTarget::Voxy => (".voxy", false),
            LegacySyncTarget::XaerosMinimap => ("xaero", false),
            LegacySyncTarget::Bobby => (".bobby", false),
            LegacySyncTarget::Litematic => ("schematics", false),
        }
    }

    /// The target the legacy bitmask stores at the given bit position.
    pub open spec fn spec_of_bit(bit: u32) -> Option<LegacySyncTarget> {
        if bit == 0 {
            Some(LegacySyncTarget::Options)
        } else if bit == 1 {
            Some(LegacySyncTarget::Servers)
        } else if bit == 2 {
            Some(LegacySyncTarget::Commands)
        } else if bit == 3 {
            Some(LegacySyncTarget::Saves)
        } else if bit == 4 {
            Some(LegacySyncTarget::Config)
        } else if bit == 5 {
            Some(LegacySyncTarget::Screenshots)
        } else if bit == 6 {
            Some(LegacySyncTarget::Resourcepacks)
        } else if bit == 7 {
            Some(LegacySyncTarget::Shaderpacks)
        } else if bit == 8 {
            Some(LegacySyncTarget::Flashback)
        } else if bit == 9 {
            Some(LegacySyncTarget::DistantHorizons)
        } else if bit == 10 {
            Some(LegacySyncTarget::Voxy)
        } else if bit == 11 {
            Some(LegacySyncTarget::XaerosMinimap)
        } else if bit == 12 {
            Some(LegacySyncTarget::Bobby)
        } else if bit == 13 {
            Some(LegacySyncTarget::Hotbars)
        } else if bit == 14 {
            Some(LegacySyncTarget::Litematic)
        } else {
            None
        }
    }

    pub fn of_bit(bit: u32) -> (r: Option<LegacySyncTarget>)
        ensures
            r == LegacySyncTarget::spec_of_bit(bit),
    {
        match bit {
            0 => Some(LegacySyncTarget::Options),
            1 => Some(LegacySyncTarget::Servers),
            2 => Some(LegacySyncTarget::Commands),
            3 => Some(LegacySyncTarget::Saves),
            4 => Some(LegacySyncTarget::Config),
            5 => Some(LegacySyncTarget::Screenshots),
            6 => Some(LegacySyncTarget::Resourcepacks),
            7 => Some(LegacySyncTarget::Shaderpacks),
            8 => Some(LegacySyncTarget::Flashback),
            9 => Some(LegacySyncTarget::DistantHorizons),
            10 => Some(LegacySyncTarget::Voxy),
            11 => Some(LegacySyncTarget::XaerosMinimap),
            12 => Some(LegacySyncTarget::Bobby),
            13 => Some(LegacySyncTarget::Hotbars),
            14 => Some(LegacySyncTarget::Litematic),
            _ => None,
        }
    }
}

/// Whether the legacy bitmask has the given bit set.
pub open spec fn spec_bit_set(bits: u32, bit: u32) -> bool
    recommends
        bit < 32,
{
    bits & (1u32 << bit) != 0
}

/// The names that the legacy bitmask `bits` selects at bit positions from
/// `bit` upward, keeping only file names (when `file` is true) or only
/// folder names (when false), in bit order.
pub open spec fn spec_legacy_names(bits: u32, bit: u32, file: bool) -> Seq<Seq<char>>
    decreases LEGACY_SYNC_TARGET_BITS - bit,
{
    if bit >= LEGACY_SYNC_TARGET_BITS {
        Seq::empty()
    } else {
        let rest = spec_legacy_names(bits, (bit + 1) as u32, file);
        match LegacySyncTarget::spec_of_bit(bit) {
            Some(t) => if spec_bit_set(bits, bit) && t.spec_new_target().1 == file {
                seq![t.spec_new_target().0] + rest
            } else {
                rest
            },
            None => rest,
        }
    }
}

/// The names of a sync-target list, in order.
pub open spec fn names_view(s: Seq<String>) -> Seq<Seq<char>> {
    s.map_values(|n: String| n@)
}

/// Migrates a legacy bitmask of sync targets to the current named form:
/// each set bit contributes its target's name to the file or folder list,
/// in bit order.
pub fn sync_targets_from_legacy_bits(bits: u32) -> (r: SyncTargets)
    ensures
        names_view(r.files@) == spec_legacy_names(bits, 0, true),
        names_view(r.folders@) == spec_legacy_names(bits, 0, false),
{
    let mut files: Vec<String> = Vec::new();
    let mut folders: Vec<String> = Vec::new();
    let mut bit: u32 = 0;
    proof {
        assert(names_view(files@) + spec_legacy_names(bits, 0, true) =~= spec_legacy_names(
            bits,
            0,
            true,
        ));
        assert(names_view(folders@) + spec_legacy_names(bits, 0, false) =~= spec_legacy_names(
            bits,
            0,
            false,
        ));
    }
    while bit < LEGACY_SYNC_TARGET_BITS
        invariant
            bit <= LEGACY_SYNC_TARGET_BITS,
            spec_legacy_names(bits, 0, true) == names_view(files@) + spec_legacy_names(
                bits,
                bit,
                true,
            ),
            spec_legacy_names(bits, 0, false) == names_view(folders@) + spec_legacy_names(
                bits,
                bit,
                false,
            ),
        decreases LEGACY_SYNC_TARGET_BITS - bit,
    {
        let ghost files_pre = files@;
        let ghost folders_pre = folders@;
        if bits & (1u32 << bit) != 0 {
            match LegacySyncTarget::of_bit(bit) {
                Some(t) => {
                    let (name, is_file) = t.get_new_target();
                    if is_file {
                        files.push(String::from_str(name));
                    } else {
                        folders.push(String::from_str(name));
                    }
                },
                None => (),
            }
        }
        proof {
            assert(names_view(files@) =~= if files@.len() == files_pre.len() {
                names_view(files_pre)
            } else {
                names_view(files_pre) + seq![files@.last()@]
            });
            assert(names_view(folders@) =~= if folders@.len() == folders_pre.len() {
                names_view(folders_pre)
            } else {
                names_view(folders_pre) + seq![folders@.last()@]
            });
            assert(spec_legacy_names(bits, 0, true) =~= names_view(files@) + spec_legacy_names(
                bits,
                (bit + 1) as u32,
                true,
            ));
            assert(spec_legacy_names(bits, 0, false) =~= names_view(folders@) + spec_legacy_names(
                bits,
                (bit + 1) as u32,
                false,
            ));
        }
        bit = bit + 1;
    }
    SyncTargets { files, folders }
}

} // verus!
