//! Routing configuration: the two base URLs, validated as absolute URLs at
//! load time, and the two mirrored channel-name sets, given as
//! newline-delimited lists.

use vstd::prelude::*;
use crate::text::{find_char, lemma_prefix_to_take, prefix_to};
use crate::urls::{parse_url, parsed_url};

verus! {

/// A line with the trailing carriage return of a "\r\n" ending removed.
pub open spec fn strip_cr(line: Seq<char>) -> Seq<char> {
    if line.len() > 0 && line.last() == '\r' {
        line.drop_last()
    } else {
        line
    }
}

/// The lines of `s` as `str::lines` yields them: split at '\n', a '\r'
/// directly before a '\n' removed, the final line ending optional, and a
/// trailing '\r' without a '\n' kept in the last line.
pub open spec fn lines_of(s: Seq<char>) -> Seq<Seq<char>>
    decreases s.len(),
{
    if s.len() == 0 {
        Seq::empty()
    } else {
        let line = prefix_to(s, '\n');
        if line.len() >= s.len() {
            seq![line]
        } else {
            seq![strip_cr(line)] + lines_of(s.skip(line.len() as int + 1))
        }
    }
}

/// The channel names a list of channels holds, as character sequences.
pub open spec fn names_of(channels: Seq<String>) -> Seq<Seq<char>> {
    channels.map_values(|c: String| c@)
}

/// Splits a newline-delimited channel list into one name per line, exactly
/// as `str::lines` splits it.
pub fn parse_channel_list(list: &str) -> (channels: Vec<String>)
    ensures
        names_of(channels@) == lines_of(list@),
{
    let n = list.unicode_len();
    let mut channels: Vec<String> = Vec::new();
    let mut start: usize = 0;
    proof {
        assert(list@.skip(0) =~= list@);
        assert(names_of(channels@) =~= Seq::<Seq<char>>::empty());
        assert(names_of(channels@) + lines_of(list@) =~= lines_of(list@));
    }
    while start < n
        invariant
            start <= n,
            n == list@.len(),
            lines_of(list@) == names_of(channels@) + lines_of(list@.skip(start as int)),
        decreases n - start,
    {
        let ghost rest = list@.skip(start as int);
        let ghost prev = channels@;
        let j = find_char(list, start, '\n');
        proof {
            assert(forall|k: int| 0 <= k < j - start ==> #[trigger] rest[k] != '\n');
            lemma_prefix_to_take(rest, '\n', j - start);
        }
        if j == n {
            let line = list.substring_char(start, n);
            channels.push(line.to_owned());
            proof {
                assert(rest.take(rest.len() as int) =~= rest);
                assert(lines_of(rest) == seq![rest]);
                assert(names_of(channels@) =~= names_of(prev) + seq![rest]);
                assert(names_of(prev) + seq![rest] + lines_of(list@.skip(n as int))
                    =~= names_of(prev) + seq![rest]);
            }
            start = n;
        } else {
            let mut end = j;
            if end > start && list.get_char(end - 1) == '\r' {
                end = end - 1;
            }
            let line = list.substring_char(start, end);
            channels.push(line.to_owned());
            proof {
                let stripped = strip_cr(rest.take(j - start));
                assert(rest.take(j - start) =~= list@.subrange(start as int, j as int));
                assert(stripped =~= list@.subrange(start as int, end as int));
                assert(rest.skip(j - start + 1) =~= list@.skip(j + 1));
                assert(lines_of(rest) == seq![stripped] + lines_of(list@.skip(j + 1)));
                assert(names_of(channels@) =~= names_of(prev) + seq![stripped]);
                assert(names_of(prev) + (seq![stripped] + lines_of(list@.skip(j + 1)))
                    =~= names_of(channels@) + lines_of(list@.skip(j + 1)));
            }
            start = j + 1;
        }
    }
    proof {
        assert(list@.skip(start as int) =~= Seq::<char>::empty());
        assert(names_of(channels@) + lines_of(Seq::<char>::empty()) =~= names_of(channels@));
    }
    channels
}

/// Error: a required base URL of the configuration is not a valid absolute
/// URL. Configuration loading fails before any request is served.
#[derive(Clone, Copy, Debug, PartialEq, Eq)]
pub enum ConfigError {
    BadOfficialBase,
    BadMirrorBase,
}

/// The routing configuration: the official upstream base, the mirror host
/// base, and the two channel sets. The sets need not be disjoint; the
/// router gives the packages set priority.
#[derive(Debug)]
pub struct MirrorConfig {
    pub official_base: String,
    pub mirror_base: String,
    pub pkgs_channels: Vec<String>,
    pub cloud_channels: Vec<String>,
}

impl MirrorConfig {
    /// Both configured bases are valid absolute URLs.
    pub open spec fn wf(self) -> bool {
        parsed_url(self.official_base@) is Some && parsed_url(self.mirror_base@) is Some
    }

    /// Builds a configuration from the host-supplied values, the channel
    /// sets given newline-delimited; rejects a base that is not a valid
    /// absolute URL (the official base is checked first).
    pub fn new(
        official_base: &str,
        mirror_base: &str,
        pkgs_channels: &str,
        cloud_channels: &str,
    ) -> (result: Result<MirrorConfig, ConfigError>)
        ensures
            result is Ok <==> parsed_url(official_base@) is Some && parsed_url(
                mirror_base@,
            ) is Some,
            result matches Ok(cfg) ==> cfg.official_base@ == official_base@,
            result matches Ok(cfg) ==> cfg.mirror_base@ == mirror_base@,
            result matches Ok(cfg) ==> names_of(cfg.pkgs_channels@) == lines_of(pkgs_channels@),
            result matches Ok(cfg) ==> names_of(cfg.cloud_channels@) == lines_of(cloud_channels@),
            result == Err::<MirrorConfig, ConfigError>(ConfigError::BadOfficialBase) <==> parsed_url(
                official_base@,
            ) is None,
            result == Err::<MirrorConfig, ConfigError>(ConfigError::BadMirrorBase) <==> parsed_url(
                official_base@,
            ) is Some && parsed_url(mirror_base@) is None,
    {
        if parse_url(official_base).is_none() {
            return Err(ConfigError::BadOfficialBase);
        }
        if parse_url(mirror_base).is_none() {
            return Err(ConfigError::BadMirrorBase);
        }
        Ok(
            MirrorConfig {
                official_base: official_base.to_owned(),
                mirror_base: mirror_base.to_owned(),
                pkgs_channels: parse_channel_list(pkgs_channels),
                cloud_channels: parse_channel_list(cloud_channels),
            },
        )
    }
}

} // verus!
