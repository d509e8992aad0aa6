//! Build-time version and provenance metadata: resolving the semantic
//! version triple, the host compiler channel, and the source-control commit
//! hash and date, and rendering them into a human-readable string.
//!
//! Resolution works from an explicit [`BuildConfig`] (the build-time
//! constants, as text) and [`HostQueries`] (what the surrounding program read
//! from the environment and from source control), so the logic itself touches
//! neither the process environment nor any child process.

use vstd::prelude::*;
use vstd::string::StringExecFns;

pub mod digits;
pub mod text;

verus! {

use crate::digits::dec_str;
use crate::digits::digits_value;
use crate::digits::parse_bounded;
use crate::digits::u16_to_dec;
use crate::digits::valid_number;
use crate::text::trim_spec;
use crate::text::trim_str;

/// The resolved version and provenance metadata of one build.
///
/// The numeric triple is always present; each of the three string fields is
/// independently present or absent.
pub struct VersionInfo {
    pub major: u8,
    pub minor: u8,
    pub patch: u16,
    pub host_compiler: Option<String>,
    pub commit_hash: Option<String>,
    pub commit_date: Option<String>,
}

/// The build-time constants, as text: the declared package version
/// components, and the optional injected overrides. A present
/// `release_channel` selects embedded mode, where all three string fields
/// come from the injected constants; an absent one selects standalone mode,
/// where they come from [`HostQueries`] instead.
pub struct BuildConfig {
    pub version_major: String,
    pub version_minor: String,
    pub version_patch: String,
    pub release_channel: Option<String>,
    pub commit_hash: Option<String>,
    pub commit_date: Option<String>,
}

/// What the surrounding program gathered for standalone mode: the
/// release-channel environment variable, and the captured output of the two
/// source-control queries (each absent on any failure).
pub struct HostQueries {
    pub env_channel: Option<String>,
    pub git_hash: Option<String>,
    pub git_date: Option<String>,
}

/// The contents of an optional string, at the level of character sequences.
pub open spec fn opt_view(o: Option<String>) -> Option<Seq<char>> {
    match o {
        Some(s) => Some(s@),
        None => None,
    }
}

/// An optional string's contents, with absence collapsed to the empty
/// sequence, as the rendered output displays it.
pub open spec fn opt_str(o: Option<String>) -> Seq<char> {
    match o {
        Some(s) => s@,
        None => Seq::<char>::empty(),
    }
}

/// The host compiler channel that standalone mode resolves: the environment
/// override verbatim when present, the literal `"nightly"` otherwise.
pub open spec fn channel_spec(env_channel: Option<String>) -> Seq<char> {
    match env_channel {
        Some(s) => s@,
        None => "nightly"@,
    }
}

/// The three declared version components are well-formed: non-empty digit
/// strings whose values fit the fields' widths.
pub open spec fn numerics_valid(cfg: BuildConfig) -> bool {
    &&& valid_number(cfg.version_major@, 255)
    &&& valid_number(cfg.version_minor@, 255)
    &&& valid_number(cfg.version_patch@, 65535)
}

/// `info` is exactly what resolution yields from `cfg` and `q`: the parsed
/// numeric triple, and the three string fields according to the selected
/// mode — injected constants verbatim in embedded mode, environment channel
/// (with the `"nightly"` fallback) and source-control output verbatim in
/// standalone mode.
pub open spec fn resolves_to(cfg: BuildConfig, q: HostQueries, info: VersionInfo) -> bool {
    &&& info.major as int == digits_value(cfg.version_major@)
    &&& info.minor as int == digits_value(cfg.version_minor@)
    &&& info.patch as int == digits_value(cfg.version_patch@)
    &&& if cfg.release_channel is Some {
        &&& opt_view(info.host_compiler) == opt_view(cfg.release_channel)
        &&& opt_view(info.commit_hash) == opt_view(cfg.commit_hash)
        &&& opt_view(info.commit_date) == opt_view(cfg.commit_date)
    } else {
        &&& opt_view(info.host_compiler) == Some(channel_spec(q.env_channel))
        &&& opt_view(info.commit_hash) == opt_view(q.git_hash)
        &&& opt_view(info.commit_date) == opt_view(q.git_date)
    }
}

/// The full outcome of resolution: a value comes back exactly when the three
/// declared version components are well-formed — malformed constants yield
/// `None`, never a partially populated or sentinel value — and whatever comes
/// back is exactly the resolved metadata.
pub open spec fn resolution_of(cfg: BuildConfig, q: HostQueries, r: Option<VersionInfo>) -> bool {
    &&& (r is Some <==> numerics_valid(cfg))
    &&& (r matches Some(info) ==> resolves_to(cfg, q, info))
}

/// The rendered form: the tool name, the dotted version triple, and the
/// parenthesised commit hash (trimmed) and commit date (untouched), with
/// absent fields collapsing to empty text inside the unchanged template.
pub open spec fn format_spec(v: VersionInfo) -> Seq<char> {
    "clippy "@ + dec_str(v.major as nat) + "."@ + dec_str(v.minor as nat) + "."@ + dec_str(
        v.patch as nat,
    ) + " ("@ + trim_spec(opt_str(v.commit_hash)) + " "@ + opt_str(v.commit_date) + ")"@
}

/// The standalone-mode channel: the environment override when present, the
/// literal `"nightly"` otherwise. Always yields a value.
pub fn get_channel(env_channel: Option<String>) -> (r: Option<String>)
    ensures
        opt_view(r) == Some(channel_spec(env_channel)),
{
    match env_channel {
        Some(c) => Some(c),
        None => Some(String::from_str("nightly")),
    }
}

impl VersionInfo {
    /// Resolves the metadata from the given configuration and host queries.
    /// Yields `None` exactly when one of the declared version components is
    /// not a well-formed number for its width; every other missing datum
    /// degrades to an absent field.
    pub fn resolve(cfg: BuildConfig, queries: HostQueries) -> (r: Option<VersionInfo>)
        ensures
            resolution_of(cfg, queries, r),
    {
        let major_v = parse_bounded(cfg.version_major.as_str(), 255);
        let minor_v = parse_bounded(cfg.version_minor.as_str(), 255);
        let patch_v = parse_bounded(cfg.version_patch.as_str(), 65535);
        let major: u8 = match major_v {
            Some(v) => v as u8,
            None => {
                return None;
            },
        };
        let minor: u8 = match minor_v {
            Some(v) => v as u8,
            None => {
                return None;
            },
        };
        let patch: u16 = match patch_v {
            Some(v) => v as u16,
            None => {
                return None;
            },
        };
        if cfg.release_channel.is_none() {
            Some(
                VersionInfo {
                    major,
                    minor,
                    patch,
                    host_compiler: get_channel(queries.env_channel),
                    commit_hash: queries.git_hash,
                    commit_date: queries.git_date,
                },
            )
        } else {
            Some(
                VersionInfo {
                    major,
                    minor,
                    patch,
                    host_compiler: cfg.release_channel,
                    commit_hash: cfg.commit_hash,
                    commit_date: cfg.commit_date,
                },
            )
        }
    }

    /// The fail-fast constructor: callable only with well-formed version
    /// components, mirroring a build whose version constants are sound.
    pub fn new(cfg: BuildConfig, queries: HostQueries) -> (r: VersionInfo)
        requires
            numerics_valid(cfg),
        ensures
            resolves_to(cfg, queries, r),
    {
        match Self::resolve(cfg, queries) {
            Some(info) => info,
            None => vstd::pervasive::unreached(),
        }
    }

    /// Renders the metadata as the human-readable version line.
    pub fn render(&self) -> (r: String)
        ensures
            r@ == format_spec(*self),
    {
        let mut out: String = String::from_str("clippy ");
        let major_s = u16_to_dec(self.major as u16);
        out.append(major_s.as_str());
        out.append(".");
        let minor_s = u16_to_dec(self.minor as u16);
        out.append(minor_s.as_str());
        out.append(".");
        let patch_s = u16_to_dec(self.patch);
        out.append(patch_s.as_str());
        out.append(" (");
        match &self.commit_hash {
            Some(h) => {
                let t = trim_str(h.as_str());
                out.append(t);
            },
            None => {},
        }
        out.append(" ");
        match &self.commit_date {
            Some(d) => {
                out.append(d.as_str());
            },
            None => {},
        }
        out.append(")");
        proof {
            assert(out@ =~= format_spec(*self));
        }
        out
    }
}

/// Law: malformed version constants abort construction — when a declared
/// component is not a well-formed number for its width, the outcome of
/// resolution is `None`, so no partially populated or sentinel `VersionInfo`
/// is ever produced.
pub proof fn lemma_malformed_constants_yield_none(
    cfg: BuildConfig,
    q: HostQueries,
    r: Option<VersionInfo>,
)
    requires
        resolution_of(cfg, q, r),
        !numerics_valid(cfg),
    ensures
        r is None,
{
}

/// Law: resolution followed by rendering yields a string that begins with
/// the tool name and the dotted `major.minor.patch` triple, whose components
/// are the values the declared version constants denote.
pub proof fn lemma_resolved_render_begins_with_version(
    cfg: BuildConfig,
    q: HostQueries,
    info: VersionInfo,
)
    requires
        resolves_to(cfg, q, info),
    ensures
        info.major as int == digits_value(cfg.version_major@),
        info.minor as int == digits_value(cfg.version_minor@),
        info.patch as int == digits_value(cfg.version_patch@),
        ("clippy "@ + dec_str(info.major as nat) + "."@ + dec_str(info.minor as nat) + "."@
            + dec_str(info.patch as nat)).is_prefix_of(format_spec(info)),
{
    let p = "clippy "@ + dec_str(info.major as nat) + "."@ + dec_str(info.minor as nat) + "."@
        + dec_str(info.patch as nat);
    let rest = " ("@ + trim_spec(opt_str(info.commit_hash)) + " "@ + opt_str(info.commit_date)
        + ")"@;
    assert(format_spec(info) =~= p + rest);
    assert(p =~= (p + rest).subrange(0, p.len() as int));
}

} // verus!
