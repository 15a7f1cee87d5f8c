//! The payload of an alert record.

use super::codec::Reader;
use super::enums::{AlertDescription, AlertLevel};
use vstd::prelude::*;

verus! {

/// An alert: how severe it is, and what it reports.
#[derive(Clone, Copy, Debug, PartialEq, Eq, Structural)]
pub struct AlertMessagePayload {
    pub level: AlertLevel,
    pub description: AlertDescription,
}

impl AlertMessagePayload {
    /// The two bytes of this alert.
    pub open spec fn wire(self) -> Seq<u8> {
        seq![self.level@, self.description@]
    }

    /// The alert at the front of `bytes`, if two bytes are there.
    pub open spec fn parse(bytes: Seq<u8>) -> Option<Self> {
        if bytes.len() < 2 {
            None
        } else {
            Some(
                AlertMessagePayload {
                    level: AlertLevel::spec_from_u8(bytes[0]),
                    description: AlertDescription::spec_from_u8(bytes[1]),
                },
            )
        }
    }

    /// How many bytes of `bytes` reading an alert consumes.
    pub open spec fn consumed(bytes: Seq<u8>) -> nat {
        if bytes.len() < 2 {
            bytes.len()
        } else {
            2
        }
    }

    /// Appends the two bytes of this alert.
    pub fn encode(&self, bytes: &mut Vec<u8>)
        ensures
            final(bytes)@ == old(bytes)@ + self.wire(),
    {
        self.level.encode(bytes);
        self.description.encode(bytes);
        assert(bytes@ =~= old(bytes)@ + self.wire());
    }

    /// Reads an alert, or nothing when fewer than two bytes are left.
    pub fn read(r: &mut Reader) -> (out: Option<Self>)
        ensures
            out == Self::parse(old(r).remaining()),
            final(r).advanced(*old(r), Self::consumed(old(r).remaining())),
    {
        let ghost start = *r;
        let level = match AlertLevel::read(r) {
            Some(l) => l,
            None => {
                return None;
            },
        };
        let ghost mid = *r;
        let description = match AlertDescription::read(r) {
            Some(d) => d,
            None => {
                return None;
            },
        };
        proof {
            r.lemma_advanced_twice(mid, start, 1, 1);
        }
        Some(AlertMessagePayload { level, description })
    }
}

} // verus!
