//! The mirror router: picks the destination archive from the channel's set
//! membership and rewrites the request path to the destination URL.

use vstd::prelude::*;
use crate::channel::{channel_of, get_channel};
use crate::config::{names_of, MirrorConfig};
use crate::urls::{join_url, joined_url};

verus! {

/// Error: the rewritten destination is not a syntactically valid absolute
/// URL. The request fails; it is never retried.
#[derive(Clone, Copy, Debug, PartialEq, Eq)]
pub struct RewriteError;

/// Membership of a channel name in a channel set.
pub open spec fn in_channel_set(channels: Seq<String>, name: Seq<char>) -> bool {
    names_of(channels).contains(name)
}

/// Whether `name` is one of `channels`.
pub fn contains_channel(channels: &Vec<String>, name: &String) -> (present: bool)
    ensures
        present == in_channel_set(channels@, name@),
{
    let mut i: usize = 0;
    while i < channels.len()
        invariant
            i <= channels@.len(),
            forall|k: int| 0 <= k < i ==> channels@[k]@ != name@,
        decreases channels@.len() - i,
    {
        if channels[i] == *name {
            proof {
                assert(names_of(channels@)[i as int] == name@);
            }
            return true;
        }
        i = i + 1;
    }
    proof {
        assert forall|k: int| 0 <= k < names_of(channels@).len() implies names_of(channels@)[k]
            != name@ by {
            assert(names_of(channels@)[k] == channels@[k]@);
        }
    }
    false
}

/// The destination on the packages archive of the mirror host: the mirror
/// base joined with "/pkg" followed by the original path.
pub open spec fn pkgs_url_spec(path: Seq<char>, cfg: MirrorConfig) -> Option<Seq<char>> {
    joined_url(cfg.mirror_base@, "/pkg"@ + path)
}

/// The destination on the cloud archive of the mirror host: the mirror base
/// joined with "/cloud" followed by the original path.
pub open spec fn cloud_url_spec(path: Seq<char>, cfg: MirrorConfig) -> Option<Seq<char>> {
    joined_url(cfg.mirror_base@, "/cloud"@ + path)
}

/// The destination on the official upstream host: the official base joined
/// with the original path.
pub open spec fn official_url_spec(path: Seq<char>, cfg: MirrorConfig) -> Option<Seq<char>> {
    joined_url(cfg.official_base@, path)
}

/// The routing decision table, in priority order: the packages set first,
/// then the cloud set, then the official upstream for every other channel.
pub open spec fn route_spec(path: Seq<char>, cfg: MirrorConfig) -> Option<Seq<char>> {
    if in_channel_set(cfg.pkgs_channels@, channel_of(path)) {
        pkgs_url_spec(path, cfg)
    } else if in_channel_set(cfg.cloud_channels@, channel_of(path)) {
        cloud_url_spec(path, cfg)
    } else {
        official_url_spec(path, cfg)
    }
}

/// Rewrites a path to the packages archive of the mirror host.
pub fn get_pkgs_channel_url(path: &str, config: &MirrorConfig) -> (result: Result<
    String,
    RewriteError,
>)
    ensures
        result matches Ok(u) ==> pkgs_url_spec(path@, *config) == Some(u@),
        result is Err <==> pkgs_url_spec(path@, *config) is None,
{
    let mut reference = String::from_str("/pkg");
    reference.append(path);
    match join_url(config.mirror_base.as_str(), reference.as_str()) {
        Some(u) => Ok(u),
        None => Err(RewriteError),
    }
}

/// Rewrites a path to the cloud archive of the mirror host.
pub fn get_cloud_channel_url(path: &str, config: &MirrorConfig) -> (result: Result<
    String,
    RewriteError,
>)
    ensures
        result matches Ok(u) ==> cloud_url_spec(path@, *config) == Some(u@),
        result is Err <==> cloud_url_spec(path@, *config) is None,
{
    let mut reference = String::from_str("/cloud");
    reference.append(path);
    match join_url(config.mirror_base.as_str(), reference.as_str()) {
        Some(u) => Ok(u),
        None => Err(RewriteError),
    }
}

/// Rewrites a path to the official upstream host.
pub fn get_anaconda_official_url(path: &str, config: &MirrorConfig) -> (result: Result<
    String,
    RewriteError,
>)
    ensures
        result matches Ok(u) ==> official_url_spec(path@, *config) == Some(u@),
        result is Err <==> official_url_spec(path@, *config) is None,
{
    match join_url(config.official_base.as_str(), path) {
        Some(u) => Ok(u),
        None => Err(RewriteError),
    }
}

/// Routes a request path: classifies its channel, consults the channel sets
/// in priority order, and rewrites the path to the destination URL. An
/// unrecognized channel is not an error: it falls back to the official
/// upstream.
pub fn get_mirrored_package_url(path: &str, config: &MirrorConfig) -> (result: Result<
    String,
    RewriteError,
>)
    ensures
        result matches Ok(u) ==> route_spec(path@, *config) == Some(u@),
        result is Err <==> route_spec(path@, *config) is None,
{
    let channel = get_channel(path);
    if contains_channel(&config.pkgs_channels, &channel) {
        get_pkgs_channel_url(path, config)
    } else if contains_channel(&config.cloud_channels, &channel) {
        get_cloud_channel_url(path, config)
    } else {
        get_anaconda_official_url(path, config)
    }
}

/// A path whose channel is in the packages set routes to the packages
/// archive of the mirror host.
pub proof fn lemma_route_pkgs_channel(path: Seq<char>, cfg: MirrorConfig)
    requires
        in_channel_set(cfg.pkgs_channels@, channel_of(path)),
    ensures
        route_spec(path, cfg) == pkgs_url_spec(path, cfg),
{
}

/// A path whose channel is in the cloud set and not in the packages set
/// routes to the cloud archive of the mirror host.
pub proof fn lemma_route_cloud_channel(path: Seq<char>, cfg: MirrorConfig)
    requires
        in_channel_set(cfg.cloud_channels@, channel_of(path)),
        !in_channel_set(cfg.pkgs_channels@, channel_of(path)),
    ensures
        route_spec(path, cfg) == cloud_url_spec(path, cfg),
{
}

/// A channel that is in both sets routes to the packages archive: the
/// packages set takes priority by policy, not by accident.
pub proof fn lemma_route_prefers_pkgs(path: Seq<char>, cfg: MirrorConfig)
    requires
        in_channel_set(cfg.pkgs_channels@, channel_of(path)),
        in_channel_set(cfg.cloud_channels@, channel_of(path)),
    ensures
        route_spec(path, cfg) == pkgs_url_spec(path, cfg),
{
}

/// A path whose channel is in neither set, the channel-less root path
/// included, routes to the official upstream.
pub proof fn lemma_route_unknown_channel(path: Seq<char>, cfg: MirrorConfig)
    requires
        !in_channel_set(cfg.pkgs_channels@, channel_of(path)),
        !in_channel_set(cfg.cloud_channels@, channel_of(path)),
    ensures
        route_spec(path, cfg) == official_url_spec(path, cfg),
{
}

/// Routing is deterministic and stateless: the destination is a function of
/// the path and the configuration alone, so any two results that satisfy
/// the router's contract agree.
pub proof fn lemma_route_deterministic(
    path: Seq<char>,
    cfg: MirrorConfig,
    r1: Option<Seq<char>>,
    r2: Option<Seq<char>>,
)
    requires
        r1 == route_spec(path, cfg),
        r2 == route_spec(path, cfg),
    ensures
        r1 == r2,
{
}

} // verus!
