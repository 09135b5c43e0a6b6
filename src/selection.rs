use vstd::prelude::*;
use vstd::string::StrSliceExecFns;
use crate::config::{Config, DebugProbeSelector};

verus! {

/// The value of a hexadecimal digit.
pub open spec fn hex_digit(c: char) -> Option<nat> {
    if '0' <= c && c <= '9' {
        Some((c as nat - '0' as nat) as nat)
    } else if 'a' <= c && c <= 'f' {
        Some((c as nat - 'a' as nat + 10) as nat)
    } else if 'A' <= c && c <= 'F' {
        Some((c as nat - 'A' as nat + 10) as nat)
    } else {
        None
    }
}

/// The value of a string of hexadecimal digits, most significant first.
pub open spec fn hex_value(s: Seq<char>) -> Option<nat>
    decreases s.len(),
{
    if s.len() == 0 {
        Some(0)
    } else {
        match (hex_value(s.drop_last()), hex_digit(s.last())) {
            (Some(high), Some(d)) => Some(high * 16 + d),
            _ => None,
        }
    }
}

/// A `u16` written in hexadecimal: an optional `+`, then at least one
/// digit, with a value below 2^16.
pub open spec fn hex_u16(s: Seq<char>) -> Option<u16> {
    let digits = if s.len() > 0 && s[0] == '+' {
        s.skip(1)
    } else {
        s
    };
    if digits.len() == 0 {
        None
    } else {
        match hex_value(digits) {
            Some(v) => if v < 0x10000 {
                Some(v as u16)
            } else {
                None
            },
            None => None,
        }
    }
}

/// A longer digit string is worth at least as much as each of its prefixes.
pub proof fn lemma_hex_prefix(s: Seq<char>, k: int)
    requires
        0 <= k <= s.len(),
        hex_value(s) is Some,
    ensures
        hex_value(s.take(k)) is Some,
        hex_value(s.take(k))->Some_0 <= hex_value(s)->Some_0,
    decreases s.len(),
{
    if k == s.len() {
        assert(s.take(k) =~= s);
    } else {
        assert(s.drop_last().take(k) =~= s.take(k));
        lemma_hex_prefix(s.drop_last(), k);
    }
}

/// The value of one hexadecimal digit.
fn hex_digit_value(c: char) -> (r: Option<u32>)
    ensures
        match hex_digit(c) {
            Some(d) => r == Some(d as u32),
            None => r is None,
        },
{
    if '0' <= c && c <= '9' {
        Some(c as u32 - '0' as u32)
    } else if 'a' <= c && c <= 'f' {
        Some(c as u32 - 'a' as u32 + 10)
    } else if 'A' <= c && c <= 'F' {
        Some(c as u32 - 'A' as u32 + 10)
    } else {
        None
    }
}

/// Reads a `u16` written in hexadecimal, as `u16::from_str_radix` with
/// radix 16 does: an optional `+`, then digits whose value fits.
pub fn parse_hex_u16(s: &str) -> (r: Option<u16>)
    ensures
        r == hex_u16(s@),
{
    let n = s.unicode_len();
    let start: usize = if n > 0 && s.get_char(0) == '+' {
        1
    } else {
        0
    };
    let ghost digits = if s@.len() > 0 && s@[0] == '+' {
        s@.skip(1)
    } else {
        s@
    };
    assert(digits =~= s@.skip(start as int));
    if start == n {
        return None;
    }
    // `acc` is the value of the digits read so far, held at 0x10000 once it
    // reaches that bound.
    let mut acc: u32 = 0;
    let mut i: usize = start;
    assert(digits.take(0) =~= Seq::<char>::empty());
    while i < n
        invariant
            start <= i <= n,
            n == s@.len(),
            digits =~= s@.skip(start as int),
            digits == (if s@.len() > 0 && s@[0] == '+' {
                s@.skip(1)
            } else {
                s@
            }),
            hex_value(digits.take(i - start)) is Some,
            acc == if hex_value(digits.take(i - start))->Some_0 < 0x10000 {
                hex_value(digits.take(i - start))->Some_0
            } else {
                0x10000
            },
        decreases n - i,
    {
        let c = s.get_char(i);
        let ghost prefix = digits.take(i - start);
        let ghost next = digits.take(i + 1 - start);
        assert(next.drop_last() =~= prefix);
        assert(next.last() == c);
        let d = match hex_digit_value(c) {
            Some(d) => d,
            None => {
                proof {
                    assert(hex_digit(next.last()) is None);
                    assert(hex_value(next) is None);
                    if hex_value(digits) is Some {
                        lemma_hex_prefix(digits, i + 1 - start);
                    }
                    assert(hex_value(digits) is None);
                }
                return None;
            },
        };
        if acc < 0x10000 {
            acc = acc * 16 + d;
            if acc > 0x10000 {
                acc = 0x10000;
            }
        }
        i = i + 1;
    }
    assert(digits.take(n - start) =~= digits);
    if acc < 0x10000 {
        Some(acc as u16)
    } else {
        None
    }
}

/// Which probe to open.
pub enum ProbeRequest {
    /// A simulated probe.
    Fake,
    /// The probe that this selector names.
    Selected(DebugProbeSelector),
    /// The one connected probe, if there is exactly one.
    OnlyConnected,
}

/// Why no probe could be chosen.
#[derive(Debug, Clone, Copy, PartialEq, Eq, Structural)]
pub enum ProbeError {
    /// The USB vendor or product id is not hexadecimal.
    FailedToParseCredentials,
    /// This many probes are connected and none was named.
    MultipleProbesFound(usize),
    /// No probe is connected.
    NoProbesFound,
}

/// Decides which probe the options name: a simulated one for a dry run, the
/// configured selector, the USB ids given both (with the serial number), or
/// else the only connected probe.
pub fn probe_request(config: &Config) -> (r: Result<ProbeRequest, ProbeError>)
    ensures
        config.dry_run ==> r matches Ok(ProbeRequest::Fake),
        !config.dry_run && config.probe.selector is Some ==> (r matches Ok(
            ProbeRequest::Selected(s),
        ) && Some(s) == config.probe.selector),
        !config.dry_run && config.probe.selector is None && config.probe.usb_vid is Some
            && config.probe.usb_pid is Some ==> ({
            let vid = hex_u16(config.probe.usb_vid->Some_0@);
            let pid = hex_u16(config.probe.usb_pid->Some_0@);
            if vid is Some && pid is Some {
                r matches Ok(ProbeRequest::Selected(s)) && s.vendor_id == vid->Some_0
                    && s.product_id == pid->Some_0 && s.serial_number == config.probe.serial
            } else {
                r == Err::<ProbeRequest, ProbeError>(ProbeError::FailedToParseCredentials)
            }
        }),
        !config.dry_run && config.probe.selector is None && (config.probe.usb_vid is None
            || config.probe.usb_pid is None) ==> r matches Ok(ProbeRequest::OnlyConnected),
{
    if config.dry_run {
        return Ok(ProbeRequest::Fake);
    }
    match &config.probe.selector {
        Some(s) => {
            let serial_number = match &s.serial_number {
                Some(n) => Some(n.clone()),
                None => None,
            };
            Ok(
                ProbeRequest::Selected(
                    DebugProbeSelector {
                        vendor_id: s.vendor_id,
                        product_id: s.product_id,
                        serial_number,
                    },
                ),
            )
        },
        None => match (&config.probe.usb_vid, &config.probe.usb_pid) {
            (Some(vid), Some(pid)) => {
                let vendor_id = match parse_hex_u16(vid.as_str()) {
                    Some(v) => v,
                    None => return Err(ProbeError::FailedToParseCredentials),
                };
                let product_id = match parse_hex_u16(pid.as_str()) {
                    Some(p) => p,
                    None => return Err(ProbeError::FailedToParseCredentials),
                };
                let serial_number = match &config.probe.serial {
                    Some(n) => Some(n.clone()),
                    None => None,
                };
                Ok(ProbeRequest::Selected(DebugProbeSelector { vendor_id, product_id, serial_number }))
            },
            _ => Ok(ProbeRequest::OnlyConnected),
        },
    }
}

/// Accepts a list of connected probes only when it holds exactly one.
pub fn only_probe(connected: usize) -> (r: Result<(), ProbeError>)
    ensures
        connected == 0 ==> r == Err::<(), ProbeError>(ProbeError::NoProbesFound),
        connected == 1 ==> r is Ok,
        connected > 1 ==> r == Err::<(), ProbeError>(ProbeError::MultipleProbesFound(connected)),
{
    if connected > 1 {
        Err(ProbeError::MultipleProbesFound(connected))
    } else if connected == 0 {
        Err(ProbeError::NoProbesFound)
    } else {
        Ok(())
    }
}

} // verus!
