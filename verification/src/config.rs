//! The operator configuration and the plan of attribute writes that
//! applies it.
//!
//! The configuration is loaded once at startup and applied once: each
//! tunable becomes one write-then-verify cycle on an attribute file.
//! This module decides exactly which writes happen, in which order and
//! with which values; the caller performs them and logs the outcomes.

use vstd::prelude::*;
use vstd::string::StringSliceAdditionalSpecFns;


verus! {

/// Operator-supplied tunables, an immutable snapshot.  The absolute and
/// the percent form of the startup charge current are mutually
/// exclusive; when both are present the absolute form wins.
#[derive(Debug, Clone, Copy, PartialEq, Eq, Structural)]
pub struct Config {
    /// Capacity percentage below which the device is classified
    /// `Critical`; pushed into the alert attribute so the kernel and the
    /// monitor agree.
    pub critical_pct: u32,
    /// Startup charge current, absolute milliamperes.
    pub startup_charge_current_ma: Option<u32>,
    /// Startup charge current as a percentage of the queried maximum.
    pub startup_charge_current_pct: Option<u32>,
    /// Minimum capacity percentage required to power on.
    pub min_power_on_pct: Option<u32>,
    /// Whether charging is enabled or inhibited.
    pub enable_charging: Option<bool>,
}

/// The attributes the configuration touches.
#[derive(Debug, Clone, Copy, PartialEq, Eq, Structural)]
pub enum AttrKey {
    ChargeBehaviour,
    MinPowerOnPct,
    StartupChargeCurrentMa,
    CapacityAlertMin,
}

impl AttrKey {
    /// Path of the attribute file, relative to the device's directory.
    pub fn file_name(&self) -> (r: &'static str)
        ensures
            r@ == (match self {
                AttrKey::ChargeBehaviour => "charge_behaviour"@,
                AttrKey::MinPowerOnPct => "device/min_power_on_pct"@,
                AttrKey::StartupChargeCurrentMa => "startup_charge_current_ma"@,
                AttrKey::CapacityAlertMin => "capacity_alert_min"@,
            }),
    {
        match self {
            AttrKey::ChargeBehaviour => "charge_behaviour",
            AttrKey::MinPowerOnPct => "device/min_power_on_pct",
            AttrKey::StartupChargeCurrentMa => "startup_charge_current_ma",
            AttrKey::CapacityAlertMin => "capacity_alert_min",
        }
    }
}

/// One planned write: a scalar or an enumerated token for one attribute.
#[derive(Debug, Clone, PartialEq, Eq)]
pub enum WriteValue {
    Number(u32),
    Token(Vec<u8>),
}

#[derive(Debug, Clone, PartialEq, Eq)]
pub struct AttrWrite {
    pub key: AttrKey,
    pub value: WriteValue,
}

/// Mathematical image of a planned write.
pub enum SpecWriteValue {
    Number(u32),
    Token(Seq<u8>),
}

pub struct SpecWrite {
    pub key: AttrKey,
    pub value: SpecWriteValue,
}

impl View for WriteValue {
    type V = SpecWriteValue;

    open spec fn view(&self) -> SpecWriteValue {
        match self {
            WriteValue::Number(n) => SpecWriteValue::Number(*n),
            WriteValue::Token(t) => SpecWriteValue::Token(t@),
        }
    }
}

impl View for AttrWrite {
    type V = SpecWrite;

    open spec fn view(&self) -> SpecWrite {
        SpecWrite { key: self.key, value: self.value@ }
    }
}

/// The charge-behaviour token pushed when charging is enabled or
/// inhibited.
pub open spec fn spec_charge_behaviour(enable: bool) -> Seq<u8> {
    if enable {
        "auto".spec_bytes()
    } else {
        "inhibit-charging".spec_bytes()
    }
}

pub fn charge_behaviour_token(enable: bool) -> (r: Vec<u8>)
    ensures
        r@ == spec_charge_behaviour(enable),
{
    if enable {
        vstd::slice::slice_to_vec("auto".as_bytes())
    } else {
        vstd::slice::slice_to_vec("inhibit-charging".as_bytes())
    }
}

/// A percent-of-maximum startup current resolved against the queried
/// maximum: the product saturates, is scaled down, and is clamped to the
/// maximum.
pub open spec fn spec_resolve_startup_current(pct: u32, max_ma: u32) -> u32 {
    let prod: int = if pct * max_ma > u32::MAX {
        u32::MAX as int
    } else {
        pct * max_ma
    };
    let scaled: int = prod / 100;
    if scaled > max_ma {
        max_ma
    } else {
        scaled as u32
    }
}

pub fn resolve_startup_current(pct: u32, max_ma: u32) -> (r: u32)
    ensures
        r == spec_resolve_startup_current(pct, max_ma),
{
    proof {
        assert(pct * max_ma <= 0xffff_ffffu64 * 0xffff_ffffu64) by (nonlinear_arith)
            requires
                pct <= 0xffff_ffffu32,
                max_ma <= 0xffff_ffffu32,
        ;
    }
    let prod: u64 = pct as u64 * max_ma as u64;
    let sat: u64 = if prod > 0xffff_ffff {
        0xffff_ffff
    } else {
        prod
    };
    let scaled: u64 = sat / 100;
    if scaled > max_ma as u64 {
        max_ma
    } else {
        scaled as u32
    }
}

/// Whether applying `cfg` needs the queried maximum charge current: only
/// the percent form of the startup current is resolved against it.
pub fn needs_charge_current_max(cfg: &Config) -> (b: bool)
    ensures
        b == (cfg.startup_charge_current_ma is None && cfg.startup_charge_current_pct is Some),
{
    cfg.startup_charge_current_ma.is_none() && cfg.startup_charge_current_pct.is_some()
}

/// The exact writes that apply `cfg`, in order: the charge behaviour,
/// the minimum power-on percentage, the startup charge current (absolute
/// form first, else the percent form resolved against `max_ma`), and
/// always the critical threshold.
pub open spec fn spec_config_writes(cfg: Config, max_ma: Option<u32>) -> Seq<SpecWrite> {
    let behaviour: Seq<SpecWrite> = match cfg.enable_charging {
        Some(e) => seq![
            SpecWrite {
                key: AttrKey::ChargeBehaviour,
                value: SpecWriteValue::Token(spec_charge_behaviour(e)),
            },
        ],
        None => seq![],
    };
    let power_on: Seq<SpecWrite> = match cfg.min_power_on_pct {
        Some(v) => seq![
            SpecWrite { key: AttrKey::MinPowerOnPct, value: SpecWriteValue::Number(v) },
        ],
        None => seq![],
    };
    let current: Seq<SpecWrite> = match cfg.startup_charge_current_ma {
        Some(ma) => seq![
            SpecWrite { key: AttrKey::StartupChargeCurrentMa, value: SpecWriteValue::Number(ma) },
        ],
        None => match (cfg.startup_charge_current_pct, max_ma) {
            (Some(pct), Some(max)) => seq![
                SpecWrite {
                    key: AttrKey::StartupChargeCurrentMa,
                    value: SpecWriteValue::Number(spec_resolve_startup_current(pct, max)),
                },
            ],
            _ => seq![],
        },
    };
    let alert: Seq<SpecWrite> = seq![
        SpecWrite { key: AttrKey::CapacityAlertMin, value: SpecWriteValue::Number(cfg.critical_pct) },
    ];
    behaviour + power_on + current + alert
}

/// Plan the writes that apply `cfg`.  `max_ma` is the queried maximum
/// charge current; the caller must have queried it whenever the percent
/// form is to be resolved.
pub fn config_writes(cfg: &Config, max_ma: Option<u32>) -> (plan: Vec<AttrWrite>)
    requires
        cfg.startup_charge_current_ma is None && cfg.startup_charge_current_pct is Some
            ==> max_ma is Some,
    ensures
        plan@.map_values(|w: AttrWrite| w@) == spec_config_writes(*cfg, max_ma),
{
    let mut plan: Vec<AttrWrite> = Vec::new();
    if let Some(e) = cfg.enable_charging {
        plan.push(
            AttrWrite {
                key: AttrKey::ChargeBehaviour,
                value: WriteValue::Token(charge_behaviour_token(e)),
            },
        );
    }
    if let Some(v) = cfg.min_power_on_pct {
        plan.push(AttrWrite { key: AttrKey::MinPowerOnPct, value: WriteValue::Number(v) });
    }
    if let Some(ma) = cfg.startup_charge_current_ma {
        plan.push(
            AttrWrite { key: AttrKey::StartupChargeCurrentMa, value: WriteValue::Number(ma) },
        );
    } else if let Some(pct) = cfg.startup_charge_current_pct {
        let max = match max_ma {
            Some(m) => m,
            None => {
                proof {
                    assert(false);
                }
                0
            },
        };
        plan.push(
            AttrWrite {
                key: AttrKey::StartupChargeCurrentMa,
                value: WriteValue::Number(resolve_startup_current(pct, max)),
            },
        );
    }
    plan.push(
        AttrWrite { key: AttrKey::CapacityAlertMin, value: WriteValue::Number(cfg.critical_pct) },
    );
    proof {
        assert(plan@.map_values(|w: AttrWrite| w@) =~= spec_config_writes(*cfg, max_ma));
    }
    plan
}

} // verus!
