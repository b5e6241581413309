//! Choosing a configuration and a device.

use crate::output::types::{
    ChannelCount, DeviceNameError, RequestedOutputConfig, SampleFormat, SampleRate,
    SupportedStreamConfig, SupportedStreamConfigRange,
};
use vstd::prelude::*;

verus! {

/// Whether a character is white space, as the Unicode property of that
/// name says.
pub open spec fn is_space(c: char) -> bool {
    ||| '\u{9}' <= c <= '\u{d}'
    ||| c == ' '
    ||| c == '\u{85}'
    ||| c == '\u{a0}'
    ||| c == '\u{1680}'
    ||| '\u{2000}' <= c <= '\u{200a}'
    ||| c == '\u{2028}'
    ||| c == '\u{2029}'
    ||| c == '\u{202f}'
    ||| c == '\u{205f}'
    ||| c == '\u{3000}'
}

/// How many characters of white space lead a string.
pub open spec fn leading_space(s: Seq<char>) -> nat
    decreases s.len(),
{
    if s.len() > 0 && is_space(s[0]) {
        1 + leading_space(s.subrange(1, s.len() as int))
    } else {
        0
    }
}

/// How many characters of white space trail a string.
pub open spec fn trailing_space(s: Seq<char>) -> nat
    decreases s.len(),
{
    if s.len() > 0 && is_space(s.last()) {
        1 + trailing_space(s.drop_last())
    } else {
        0
    }
}

/// What a string is without the white space that leads and trails it.
pub open spec fn trimmed(s: Seq<char>) -> Seq<char> {
    if leading_space(s) + trailing_space(s) >= s.len() {
        Seq::empty()
    } else {
        s.subrange(leading_space(s) as int, s.len() - trailing_space(s))
    }
}

/// A string that neither starts nor ends with white space is what it is
/// trimmed to.
pub proof fn lemma_trimmed_of_bare(s: Seq<char>)
    requires
        s.len() > 0,
        !is_space(s[0]),
        !is_space(s.last()),
    ensures
        trimmed(s) == s,
{
    assert(s.subrange(0, s.len() as int) =~= s);
}

/// `str::trim`: the string without leading and trailing white space, which
/// is what the Unicode property of that name says.
#[verifier::external_body]
pub(crate) fn trim(s: &str) -> (r: &str)
    ensures
        r@ == trimmed(s@),
{
    s.trim()
}

/// A request with what it leaves open filled in from a default.
pub open spec fn resolved(
    request: RequestedOutputConfig,
    default_config: SupportedStreamConfig,
) -> (ChannelCount, SampleRate, SampleFormat) {
    (
        match request.channels {
            Some(channels) => channels,
            None => default_config.channels,
        },
        match request.sample_rate {
            Some(rate) => rate,
            None => default_config.sample_rate,
        },
        match request.sample_format {
            Some(format) => format,
            None => default_config.sample_format,
        },
    )
}

/// Whether a default answers a request as it stands.
pub open spec fn default_answers(
    request: RequestedOutputConfig,
    default_config: SupportedStreamConfig,
) -> bool {
    let (channels, rate, format) = resolved(request, default_config);
    default_config.channels == channels && default_config.sample_rate == rate
        && default_config.sample_format == format
}

/// Whether `index` is where the first range stands that offers what is
/// asked.
pub open spec fn is_first_offer(
    ranges: Seq<SupportedStreamConfigRange>,
    channels: ChannelCount,
    rate: SampleRate,
    format: SampleFormat,
    index: int,
) -> bool {
    &&& 0 <= index < ranges.len()
    &&& ranges[index].offers(channels, rate, format)
    &&& forall|j: int| 0 <= j < index ==> !(#[trigger] ranges[j]).offers(channels, rate, format)
}

/// Whether no range offers what is asked.
pub open spec fn none_offers(
    ranges: Seq<SupportedStreamConfigRange>,
    channels: ChannelCount,
    rate: SampleRate,
    format: SampleFormat,
) -> bool {
    forall|j: int| 0 <= j < ranges.len() ==> !(#[trigger] ranges[j]).offers(channels, rate, format)
}

/// Fills in what a request leaves open from the default of the device.
pub fn resolve(
    request: &RequestedOutputConfig,
    default_config: &SupportedStreamConfig,
) -> (r: (ChannelCount, SampleRate, SampleFormat))
    ensures
        r == resolved(*request, *default_config),
{
    let channels = match request.channels {
        Some(channels) => channels,
        None => default_config.channels,
    };
    let rate = match request.sample_rate {
        Some(rate) => rate,
        None => default_config.sample_rate,
    };
    let format = match request.sample_format {
        Some(format) => format,
        None => default_config.sample_format,
    };
    (channels, rate, format)
}

/// Whether the default of the device answers a request as it stands.
pub fn default_matches(
    request: &RequestedOutputConfig,
    default_config: &SupportedStreamConfig,
) -> (b: bool)
    ensures
        b == default_answers(*request, *default_config),
{
    let (channels, rate, format) = resolve(request, default_config);
    default_config.channels == channels && default_config.sample_rate.0 == rate.0
        && default_config.sample_format == format
}

/// The first of the ranges that offers these channels and this format at
/// this rate, taken at that rate.
pub fn first_offer(
    ranges: &Vec<SupportedStreamConfigRange>,
    channels: ChannelCount,
    rate: SampleRate,
    format: SampleFormat,
) -> (r: Option<SupportedStreamConfig>)
    ensures
        match r {
            Some(config) => exists|index: int| #[trigger]
                is_first_offer(ranges@, channels, rate, format, index) && config
                    == ranges@[index].at_rate(rate),
            None => none_offers(ranges@, channels, rate, format),
        },
{
    let mut i: usize = 0;
    while i < ranges.len()
        invariant
            i <= ranges@.len(),
            forall|j: int| 0 <= j < i ==> !(#[trigger] ranges@[j]).offers(channels, rate, format),
        decreases ranges@.len() - i,
    {
        let range = ranges[i];
        if range.channels == channels && range.sample_format == format && range.min_sample_rate.0
            <= rate.0 && range.max_sample_rate.0 >= rate.0 {
            assert(is_first_offer(ranges@, channels, rate, format, i as int));
            return Some(range.with_sample_rate(rate));
        }
        i += 1;
    }
    None
}

/// The configuration that comes closest to a request: the default of the
/// device where it answers the request as it stands; else the first of the
/// supported ranges that offers what is asked, at the rate asked; else the
/// default.
pub fn closest_config(
    request: &RequestedOutputConfig,
    default_config: SupportedStreamConfig,
    ranges: &Vec<SupportedStreamConfigRange>,
) -> (config: SupportedStreamConfig)
    ensures
        config == closest(*request, default_config, ranges@),
{
    if default_matches(request, &default_config) {
        return default_config;
    }
    let (channels, rate, format) = resolve(request, &default_config);
    proof {
        lemma_first_offer_is_unique(ranges@, channels, rate, format);
    }
    match first_offer(ranges, channels, rate, format) {
        Some(config) => config,
        None => default_config,
    }
}

/// Where the first range stands that offers what is asked, or the number of
/// ranges where none does.
pub open spec fn first_offer_index(
    ranges: Seq<SupportedStreamConfigRange>,
    channels: ChannelCount,
    rate: SampleRate,
    format: SampleFormat,
) -> int
    decreases ranges.len(),
{
    if ranges.len() == 0 {
        0
    } else if ranges[0].offers(channels, rate, format) {
        0
    } else {
        1 + first_offer_index(ranges.subrange(1, ranges.len() as int), channels, rate, format)
    }
}

/// The configuration that comes closest to a request.
pub open spec fn closest(
    request: RequestedOutputConfig,
    default_config: SupportedStreamConfig,
    ranges: Seq<SupportedStreamConfigRange>,
) -> SupportedStreamConfig {
    let (channels, rate, format) = resolved(request, default_config);
    let index = first_offer_index(ranges, channels, rate, format);
    if default_answers(request, default_config) {
        default_config
    } else if index < ranges.len() {
        ranges[index].at_rate(rate)
    } else {
        default_config
    }
}

/// The index that `first_offer_index` gives is where the first offer stands,
/// and it is past the end exactly where no range offers what is asked.
pub proof fn lemma_first_offer_is_unique(
    ranges: Seq<SupportedStreamConfigRange>,
    channels: ChannelCount,
    rate: SampleRate,
    format: SampleFormat,
)
    ensures
        0 <= first_offer_index(ranges, channels, rate, format) <= ranges.len(),
        forall|index: int| #[trigger]
            is_first_offer(ranges, channels, rate, format, index) ==> index == first_offer_index(
                ranges,
                channels,
                rate,
                format,
            ),
        none_offers(ranges, channels, rate, format) <==> first_offer_index(
            ranges,
            channels,
            rate,
            format,
        ) == ranges.len(),
    decreases ranges.len(),
{
    if ranges.len() == 0 {
    } else if ranges[0].offers(channels, rate, format) {
        assert forall|index: int| #[trigger]
            is_first_offer(ranges, channels, rate, format, index) implies index == 0 by {
            if index > 0 {
                assert(!ranges[0].offers(channels, rate, format));
            }
        }
    } else {
        let rest = ranges.subrange(1, ranges.len() as int);
        lemma_first_offer_is_unique(rest, channels, rate, format);
        assert forall|index: int| #[trigger]
            is_first_offer(ranges, channels, rate, format, index) implies index
            == first_offer_index(ranges, channels, rate, format) by {
            assert(index > 0);
            assert(rest[index - 1] == ranges[index]);
            assert forall|j: int| 0 <= j < index - 1 implies !(#[trigger] rest[j]).offers(
                channels,
                rate,
                format,
            ) by {
                assert(rest[j] == ranges[j + 1]);
            }
            assert(is_first_offer(rest, channels, rate, format, index - 1));
        }
        if none_offers(ranges, channels, rate, format) {
            assert forall|j: int| 0 <= j < rest.len() implies !(#[trigger] rest[j]).offers(
                channels,
                rate,
                format,
            ) by {
                assert(rest[j] == ranges[j + 1]);
            }
        }
        if first_offer_index(ranges, channels, rate, format) == ranges.len() {
            assert(none_offers(rest, channels, rate, format));
            assert forall|j: int| 0 <= j < ranges.len() implies !(#[trigger] ranges[j]).offers(
                channels,
                rate,
                format,
            ) by {
                if j > 0 {
                    assert(rest[j - 1] == ranges[j]);
                }
            }
        }
    }
}

/// Whether a device goes by a name: its name could be read and is the name
/// asked for, whitespace at either end of both left aside.
pub fn name_matches(name: &Result<String, DeviceNameError>, wanted: &str) -> (b: bool)
    ensures
        b == match name {
            Ok(name) => trimmed(name@) == trimmed(wanted@),
            Err(_) => false,
        },
{
    match name {
        Ok(name) => {
            let left = trim(name.as_str()).to_owned();
            let right = trim(wanted).to_owned();
            left == right
        },
        Err(_) => false,
    }
}

} // verus!
