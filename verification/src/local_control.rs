//! Applying a fan-control command to the simulated machine when no daemon
//! takes it: every controllable fan for the commands that cover all fans, one
//! fan for the per-fan commands, and the remembered pins kept in step.
use vstd::prelude::*;
use crate::control::{
    FanOverrides, LocalCommand, LocalCommandView, LocalWriteError, local_command,
    local_command_label, local_result_message, parse_local_command,
    record_local_success,
};
use crate::hardware::{CoreError, unknown_fan_message};
use crate::mock::{FanStateView, MockProvider, capped_duty, fan_ids_distinct, has_fan};
use crate::number::{decimal, push_decimal};
use crate::text::str_eq;

verus! {

/// The fan-curve profiles a command can name.
pub open spec fn profile_known(name: Seq<char>) -> bool {
    name == "silent"@ || name == "balanced"@ || name == "gaming"@ || name == "performance"@ || name
        == "maximum"@
}

/// Whether `name` names a fan-curve profile.
pub fn is_profile_name(name: &str) -> (r: bool)
    ensures
        r == profile_known(name@),
{
    str_eq(name, "silent") || str_eq(name, "balanced") || str_eq(name, "gaming") || str_eq(
        name,
        "performance",
    ) || str_eq(name, "maximum")
}

/// The text a backend error is reported with.
pub open spec fn core_error_text(e: CoreError) -> Seq<char> {
    match e {
        CoreError::NotFound(m) => "not found: "@ + m@,
        CoreError::PermissionDenied(m) => "permission denied: "@ + m@,
        CoreError::Unsupported(m) => "unsupported: "@ + m@,
        CoreError::Hardware(m) => "hardware error: "@ + m@,
    }
}

/// How a failed write of the app's own is reported: a missing privilege as
/// such, anything else by its error's text.
pub fn local_write_error(e: CoreError) -> (r: LocalWriteError)
    ensures
        match e {
            CoreError::PermissionDenied(_) => r == LocalWriteError::PermissionDenied,
            _ => r matches LocalWriteError::Other(t) && t@ == core_error_text(e),
        },
{
    match e {
        CoreError::PermissionDenied(_) => LocalWriteError::PermissionDenied,
        CoreError::NotFound(m) => {
            let mut t = String::from_str("not found: ");
            t.append(m.as_str());
            LocalWriteError::Other(t)
        },
        CoreError::Unsupported(m) => {
            let mut t = String::from_str("unsupported: ");
            t.append(m.as_str());
            LocalWriteError::Other(t)
        },
        CoreError::Hardware(m) => {
            let mut t = String::from_str("hardware error: ");
            t.append(m.as_str());
            LocalWriteError::Other(t)
        },
    }
}

/// The fans `fans`, every one of them at duty `d`.
pub open spec fn with_duty(fans: Seq<FanStateView>, d: u8) -> Seq<FanStateView> {
    fans.map_values(|f: FanStateView| FanStateView { duty: d, ..f })
}

/// The fans `fans`, the one with id `id` at duty `d`.
pub open spec fn with_fan_duty(fans: Seq<FanStateView>, id: Seq<char>, d: u8) -> Seq<FanStateView> {
    fans.map_values(
        |f: FanStateView|
            if f.id == id {
                FanStateView { duty: d, ..f }
            } else {
                f
            },
    )
}

/// The answer to a command that was applied, under `label`.
pub open spec fn applied(label: Seq<char>) -> Seq<char> {
    label + " — applied locally"@
}

/// The answer to a per-fan command for a fan that does not exist.
pub open spec fn fan_not_found(id: Seq<char>) -> Seq<char> {
    "error: not found: "@ + unknown_fan_message(id)
}

/// What applying `cmd` to the simulated fans `fans` with the remembered pins
/// `pins` leaves: the fans, the pins and the answer. `profile_duty` is the
/// duty the named profile's curve gives at the current temperature, `None`
/// when no temperature can be trusted. A command that does not parse, an
/// unknown profile, a profile without a temperature and a per-fan command for
/// an unknown fan change nothing.
pub open spec fn local_outcome(
    fans: Seq<FanStateView>,
    pins: Map<Seq<char>, u8>,
    cmd: Seq<char>,
    profile_duty: Option<u8>,
) -> (Seq<FanStateView>, Map<Seq<char>, u8>, Seq<char>) {
    match local_command(cmd) {
        Err(e) => (fans, pins, e),
        Ok(c) => match c {
            LocalCommandView::Auto => (fans, Map::empty(), applied("auto"@)),
            LocalCommandView::Hold(d) => (
                with_duty(fans, d),
                Map::empty(),
                applied("hold "@ + decimal(d as nat) + "%"@),
            ),
            LocalCommandView::Profile(name) => if !profile_known(name) {
                (fans, pins, "unknown profile"@)
            } else {
                match profile_duty {
                    None => (fans, pins, "profile not applied: no trustworthy temperature"@),
                    Some(d) => (
                        with_duty(fans, capped_duty(d)),
                        Map::empty(),
                        applied(name + " ("@ + decimal(d as nat) + "%)"@),
                    ),
                }
            },
            LocalCommandView::FanHold(id, d) => if has_fan(fans, id) {
                (
                    with_fan_duty(fans, id, d),
                    pins.insert(id, d),
                    applied(id + " hold "@ + decimal(d as nat) + "%"@),
                )
            } else {
                (fans, pins, fan_not_found(id))
            },
            LocalCommandView::FanAuto(id) => if has_fan(fans, id) {
                (fans, pins.remove(id), applied(id + " auto"@))
            } else {
                (fans, pins, fan_not_found(id))
            },
        },
    }
}

/// The ids of the controllable fans, in order: on the simulated machine,
/// every fan.
fn controllable_fan_ids(provider: &MockProvider) -> (r: Vec<String>)
    ensures
        r@.len() == provider.fan_states().len(),
        forall|k: int| 0 <= k < r@.len() ==> #[trigger] r@[k]@ == provider.fan_states()[k].id,
        fan_ids_distinct(provider.fan_states()),
{
    let fans = provider.fans();
    let mut ids: Vec<String> = Vec::new();
    let mut k: usize = 0;
    while k < fans.len()
        invariant
            k <= fans@.len(),
            fans@.len() == provider.fan_states().len(),
            forall|j: int|
                0 <= j < fans@.len() ==> #[trigger] fans@[j].id@ == provider.fan_states()[j].id
                    && fans@[j].controllable,
            ids@.len() == k,
            forall|j: int| 0 <= j < k ==> #[trigger] ids@[j]@ == provider.fan_states()[j].id,
        decreases fans@.len() - k,
    {
        let ghost before = ids@;
        assert(fans@[k as int].id@ == provider.fan_states()[k as int].id && fans@[k as int].controllable);
        if fans[k].controllable {
            ids.push(fans[k].id.clone());
        }
        assert(ids@ == before.push(fans@[k as int].id));
        assert forall|j: int| 0 <= j < k + 1 implies #[trigger] ids@[j]@ == provider.fan_states()[j].id by {
            if j < k {
                assert(ids@[j] == before[j]);
            }
        }
        k += 1;
    }
    ids
}

/// Sets every fan in `ids` to duty `d`, stopping at the first failure.
fn duty_all(provider: &mut MockProvider, ids: &Vec<String>, d: u8) -> (r: Result<(), CoreError>)
    requires
        ids@.len() == old(provider).fan_states().len(),
        forall|k: int| 0 <= k < ids@.len() ==> #[trigger] ids@[k]@ == old(provider).fan_states()[k].id,
        fan_ids_distinct(old(provider).fan_states()),
    ensures
        r is Ok,
        final(provider).fan_states() == with_duty(old(provider).fan_states(), capped_duty(d)),
{
    let ghost start = provider.fan_states();
    let mut i: usize = 0;
    while i < ids.len()
        invariant
            i <= ids@.len(),
            ids@.len() == start.len(),
            provider.fan_states().len() == start.len(),
            forall|k: int| 0 <= k < ids@.len() ==> #[trigger] ids@[k]@ == start[k].id,
            fan_ids_distinct(start),
            forall|k: int|
                0 <= k < i ==> #[trigger] provider.fan_states()[k] == (FanStateView {
                    duty: capped_duty(d),
                    ..start[k]
                }),
            forall|k: int| i <= k < start.len() ==> #[trigger] provider.fan_states()[k] == start[k],
        decreases ids@.len() - i,
    {
        let ghost before = provider.fan_states();
        assert(before[i as int].id == ids@[i as int]@);
        let r = provider.set_fan_duty(ids[i].as_str(), d);
        match r {
            Ok(()) => {},
            Err(e) => {
                return Err(e);
            },
        }
        proof {
            let j = choose|j: int|
                0 <= j < before.len() && before[j].id == ids@[i as int]@ && (forall|k: int|
                    0 <= k < j ==> before[k].id != ids@[i as int]@) && provider.fan_states()
                    == before.update(j, FanStateView { duty: capped_duty(d), ..before[j] });
            assert(before[j].id == start[j].id);
            assert(before[i as int].id == start[i as int].id);
            assert(j == i);
        }
        i += 1;
    }
    assert(provider.fan_states() =~= with_duty(start, capped_duty(d)));
    Ok(())
}

/// Hands every fan in `ids` back to automatic control, stopping at the first
/// failure.
fn auto_all(provider: &MockProvider, ids: &Vec<String>) -> (r: Result<(), CoreError>)
    requires
        ids@.len() == provider.fan_states().len(),
        forall|k: int| 0 <= k < ids@.len() ==> #[trigger] ids@[k]@ == provider.fan_states()[k].id,
    ensures
        r is Ok,
{
    let mut i: usize = 0;
    while i < ids.len()
        invariant
            i <= ids@.len(),
            ids@.len() == provider.fan_states().len(),
            forall|k: int|
                0 <= k < ids@.len() ==> #[trigger] ids@[k]@ == provider.fan_states()[k].id,
        decreases ids@.len() - i,
    {
        assert(provider.fan_states()[i as int].id == ids@[i as int]@);
        match provider.set_fan_auto(ids[i].as_str()) {
            Ok(()) => {},
            Err(e) => {
                return Err(e);
            },
        }
        i += 1;
    }
    Ok(())
}

/// The label a profile is reported under: its name and the duty it set.
fn profile_label(name: &str, d: u8) -> (r: String)
    ensures
        r@ == name@ + " ("@ + decimal(d as nat) + "%)"@,
{
    let mut s = String::from_str(name);
    s.append(" (");
    push_decimal(&mut s, d as u64);
    s.append("%)");
    s
}

/// Applies `cmd` to the simulated machine and the remembered pins, as the
/// app does when no daemon takes a command; see `local_outcome`. A hold
/// reaches every controllable fan, and a command that covers every fan clears
/// the pins.
pub fn apply_local(
    provider: &mut MockProvider,
    pins: &mut FanOverrides,
    cmd: &str,
    profile_duty: Option<u8>,
) -> (r: String)
    ensures
        final(provider).fan_states() == local_outcome(
            old(provider).fan_states(),
            old(pins)@,
            cmd@,
            profile_duty,
        ).0,
        final(pins)@ == local_outcome(old(provider).fan_states(), old(pins)@, cmd@, profile_duty).1,
        r@ == local_outcome(old(provider).fan_states(), old(pins)@, cmd@, profile_duty).2,
{
    if !provider.capabilities().control_fans {
        return String::from_str("no fan control on this backend");
    }
    let command = match parse_local_command(cmd) {
        Ok(c) => c,
        Err(e) => {
            return String::from_str(e);
        },
    };
    let ghost fans0 = provider.fan_states();
    let ids = controllable_fan_ids(provider);
    let outcome: Result<(), CoreError>;
    let label: String;
    match &command {
        LocalCommand::Auto => {
            outcome = auto_all(provider, &ids);
            label = String::from_str("auto");
        },
        LocalCommand::Hold(d) => {
            outcome = duty_all(provider, &ids, *d);
            label = match local_command_label(&command) {
                Some(s) => s,
                None => String::new(),
            };
            assert(provider.fan_states() =~= with_duty(fans0, *d));
        },
        LocalCommand::Profile(name) => {
            if !is_profile_name(name.as_str()) {
                return String::from_str("unknown profile");
            }
            match profile_duty {
                None => {
                    return String::from_str("profile not applied: no trustworthy temperature");
                },
                Some(d) => {
                    outcome = duty_all(provider, &ids, d);
                    label = profile_label(name.as_str(), d);
                },
            }
        },
        LocalCommand::FanHold(id, d) => {
            outcome = provider.set_fan_duty(id.as_str(), *d);
            label = match local_command_label(&command) {
                Some(s) => s,
                None => String::new(),
            };
            proof {
                if outcome is Ok {
                    let j = choose|j: int|
                        0 <= j < fans0.len() && fans0[j].id == id@ && (forall|k: int|
                            0 <= k < j ==> fans0[k].id != id@) && provider.fan_states()
                            == fans0.update(j, FanStateView { duty: capped_duty(*d), ..fans0[j] });
                    assert(provider.fan_states() =~= with_fan_duty(fans0, id@, *d)) by {
                        assert forall|k: int| 0 <= k < fans0.len() implies #[trigger] provider.fan_states()[k]
                            == with_fan_duty(fans0, id@, *d)[k] by {
                            if k != j {
                                assert(fans0[k].id != fans0[j].id);
                            }
                        }
                    }
                }
            }
        },
        LocalCommand::FanAuto(id) => {
            outcome = provider.set_fan_auto(id.as_str());
            label = match local_command_label(&command) {
                Some(s) => s,
                None => String::new(),
            };
        },
    }
    match outcome {
        Ok(()) => {
            record_local_success(pins, &command);
            local_result_message(label.as_str(), Ok(()))
        },
        Err(e) => {
            proof {
                reveal_strlit("error: ");
                reveal_strlit("not found: ");
                reveal_strlit("error: not found: ");
                assert forall|m: Seq<char>|
                    "error: "@ + ("not found: "@ + m) =~= #[trigger] ("error: not found: "@ + m) by {}
            }
            local_result_message(label.as_str(), Err(local_write_error(e)))
        },
    }
}

/// A hold without a daemon reaches every fan: when `cmd` reads as a hold at
/// `d` percent, every simulated fan ends at `d` and no pin is left.
pub proof fn lemma_hold_reaches_every_fan(
    fans: Seq<FanStateView>,
    pins: Map<Seq<char>, u8>,
    cmd: Seq<char>,
    profile_duty: Option<u8>,
    d: u8,
)
    requires
        local_command(cmd) == Ok::<LocalCommandView, Seq<char>>(LocalCommandView::Hold(d)),
    ensures
        local_outcome(fans, pins, cmd, profile_duty).0.len() == fans.len(),
        forall|i: int|
            0 <= i < fans.len() ==> #[trigger] local_outcome(fans, pins, cmd, profile_duty).0[i]
                == (FanStateView { duty: d, ..fans[i] }),
        local_outcome(fans, pins, cmd, profile_duty).1 == Map::<Seq<char>, u8>::empty(),
{
}

/// Every profile the dashboard offers (silent, balanced, gaming, performance,
/// maximum) is applied without a daemon once its duty `d` is known: every
/// simulated fan goes to `d` percent (at most 100), the pins are cleared, and
/// the answer names the profile and its duty.
pub proof fn lemma_dashboard_profiles_apply_locally(
    fans: Seq<FanStateView>,
    pins: Map<Seq<char>, u8>,
    name: Seq<char>,
    d: u8,
)
    requires
        name == "silent"@ || name == "balanced"@ || name == "gaming"@ || name == "performance"@
            || name == "maximum"@,
    ensures
        local_outcome(fans, pins, "profile:"@ + name, Some(d)).0.len() == fans.len(),
        forall|i: int|
            0 <= i < fans.len() ==> #[trigger] local_outcome(fans, pins, "profile:"@ + name, Some(d)).0[i]
                == (FanStateView { duty: if d > 100 { 100 } else { d }, ..fans[i] }),
        local_outcome(fans, pins, "profile:"@ + name, Some(d)).1 == Map::<Seq<char>, u8>::empty(),
        local_outcome(fans, pins, "profile:"@ + name, Some(d)).2 == name + " ("@ + decimal(d as nat)
            + "%) — applied locally"@,
{
    reveal_strlit("profile:");
    reveal_strlit("auto");
    reveal_strlit("%)");
    reveal_strlit(" — applied locally");
    reveal_strlit("%) — applied locally");
    let cmd = "profile:"@ + name;
    assert(cmd != "auto"@) by {
        assert(cmd.len() >= 8);
    }
    assert(cmd.subrange(0, 8) =~= "profile:"@);
    assert(crate::text::starts_with(cmd, "profile:"@));
    assert(cmd.skip(8) =~= name);
    assert("%)"@ + " — applied locally"@ =~= "%) — applied locally"@);
    assert(name + " ("@ + decimal(d as nat) + "%)"@ + " — applied locally"@ =~= name + " ("@
        + decimal(d as nat) + "%) — applied locally"@);
}

} // verus!
