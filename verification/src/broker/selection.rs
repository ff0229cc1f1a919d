use vstd::prelude::*;

verus! {

/// The brokers the library can talk to.
#[derive(Debug, Clone, Copy, PartialEq, Eq, Structural)]
pub enum BrokerKind {
    Oanda,
    Darwinex,
    Ibkr,
    Xtb,
}

/// The broker named by the `BROKER` setting: `darwinex`, `ibkr` and `xtb` name themselves;
/// anything else, or no setting, selects Oanda.
pub open spec fn spec_broker_kind(name: Option<Seq<char>>) -> BrokerKind {
    match name {
        Some(n) => if n == "darwinex"@ {
            BrokerKind::Darwinex
        } else if n == "ibkr"@ {
            BrokerKind::Ibkr
        } else if n == "xtb"@ {
            BrokerKind::Xtb
        } else {
            BrokerKind::Oanda
        },
        None => BrokerKind::Oanda,
    }
}

/// The broker named by the `BROKER` setting, if set (see `spec_broker_kind`).
pub fn broker_kind(name: Option<&str>) -> (res: BrokerKind)
    ensures
        res == spec_broker_kind(
            match name {
                Some(n) => Some(n@),
                None => None,
            },
        ),
{
    match name {
        Some(n) => {
            let t = n.to_owned();
            if t == "darwinex".to_owned() {
                BrokerKind::Darwinex
            } else if t == "ibkr".to_owned() {
                BrokerKind::Ibkr
            } else if t == "xtb".to_owned() {
                BrokerKind::Xtb
            } else {
                BrokerKind::Oanda
            }
        },
        None => BrokerKind::Oanda,
    }
}

} // verus!
