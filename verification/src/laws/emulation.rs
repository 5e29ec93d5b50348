//! The loop of the emulator thread, in nanoseconds and milliseconds.

use crate::ui::emulator::{
    mobile_attached, peripheral_for, port_for, step_for, work_before, AdapterWork, EmuCommand,
    EmuLoop, EmuStep, HeadlessLimits, PortChoice, SerialPeripheral, Speed, UiAction, UiToEmu,
};
use vstd::prelude::*;

verus! {

/// No emulated time is lost or made up on the way to the Mobile Adapter: what was
/// kept back and the 16742706 ns of the frame are the milliseconds that it is told
/// of and what is kept back now, less than one. An adapter that is not in use is
/// told nothing.
pub proof fn law_adapter_time_adds_up(before: EmuLoop, mobile_available: bool)
    requires
        before.wf(),
    ensures
        before.mobile_time_accum_ns < 1_000_000,
        before.after_frame(mobile_available).mobile_time_accum_ns < 1_000_000,
        before.mobile_active && mobile_available ==> {
            &&& before.told_after_frame(mobile_available) is Some
            &&& before.mobile_time_accum_ns + 16_742_706 == 1_000_000
                * before.told_after_frame(mobile_available)->0 + before.after_frame(
                mobile_available,
            ).mobile_time_accum_ns
        },
        !(before.mobile_active && mobile_available) ==> {
            &&& before.told_after_frame(mobile_available) is None
            &&& before.after_frame(mobile_available).mobile_time_accum_ns
                == before.mobile_time_accum_ns
        },
{
}

/// A frame counts once and changes nothing else.
pub proof fn law_frames_are_counted(before: EmuLoop, mobile_available: bool)
    ensures
        before.frame_count < u64::MAX ==> before.after_frame(mobile_available).frame_count
            == before.frame_count + 1,
        before.frame_count == u64::MAX ==> before.after_frame(mobile_available).frame_count == 0,
        before.after_frame(mobile_available).paused == before.paused,
        before.after_frame(mobile_available).speed == before.speed,
        before.after_frame(mobile_available).next_frame == before.next_frame,
        before.after_frame(mobile_available).serial_peripheral == before.serial_peripheral,
        before.after_frame(mobile_available).mobile_active == before.mobile_active,
{
}

/// At normal speed the loop sleeps until the frame is due, and not at all when it
/// is late; the next one is due 16742706 ns after this one was, whenever that came
/// about. While fast-forwarding it never sleeps, and the next one is due now.
pub proof fn law_pace(before: EmuLoop, now: u64)
    requires
        before.next_frame + 16_742_706 <= u64::MAX,
    ensures
        !before.speed.fast ==> {
            &&& before.sleep_until_due(now) matches Some(sleep) ==> sleep > 0 && now + sleep
                == before.next_frame
            &&& before.sleep_until_due(now) is None ==> now >= before.next_frame
            &&& before.paced(now).next_frame == before.next_frame + 16_742_706
        },
        before.speed.fast ==> {
            &&& before.sleep_until_due(now) is None
            &&& before.paced(now).next_frame == now
        },
        before.paced(now) == (EmuLoop { next_frame: before.paced(now).next_frame, ..before }),
{
}

/// Fast-forwarding is four times as fast.
pub proof fn law_speed(speed: Speed)
    ensures
        speed.fast ==> speed.multiple() == 4,
        !speed.fast ==> speed.multiple() == 1,
{
}

/// A frame may take one and a half frame times, 25114059 ns, before it is worth a
/// warning, and as long as it likes while fast-forwarding.
pub proof fn law_budget(before: EmuLoop, elapsed: u64)
    ensures
        before.is_over_budget(elapsed) <==> !before.speed.fast && elapsed > 25_114_059,
{
}

/// While debugging, the serial output is looked at every sixty frames.
pub proof fn law_serial_output_is_looked_at(before: EmuLoop, n: int, rest: int)
    requires
        before.frame_count == 60 * n + rest,
        0 <= rest < 60,
    ensures
        before.is_serial_due(true) <==> rest == 0,
        !before.is_serial_due(false),
{
}

/// A message to pause, or to change speed, does that, and the next frame is due
/// one frame time from now. No other message changes the loop by itself.
pub proof fn law_messages<C>(
    before: EmuLoop,
    paused: bool,
    speed: Speed,
    buttons: u8,
    peripheral: SerialPeripheral,
    action: UiAction<C>,
    now: u64,
)
    requires
        now + 16_742_706 <= u64::MAX,
    ensures
        ({
            let after = before.told(UiToEmu::<C>::Command(EmuCommand::SetPaused(paused)), now);
            &&& after.paused == paused
            &&& after.next_frame == now + 16_742_706
            &&& after.speed == before.speed
            &&& after.frame_count == before.frame_count
            &&& after.serial_peripheral == before.serial_peripheral
            &&& after.mobile_active == before.mobile_active
            &&& after.mobile_time_accum_ns == before.mobile_time_accum_ns
        }),
        ({
            let after = before.told(UiToEmu::<C>::Command(EmuCommand::SetSpeed(speed)), now);
            &&& after.speed == speed
            &&& after.next_frame == now + 16_742_706
            &&& after.paused == before.paused
            &&& after.frame_count == before.frame_count
            &&& after.serial_peripheral == before.serial_peripheral
            &&& after.mobile_active == before.mobile_active
            &&& after.mobile_time_accum_ns == before.mobile_time_accum_ns
        }),
        before.told(UiToEmu::<C>::Command(EmuCommand::UpdateInput(buttons)), now) == before,
        before.told(UiToEmu::<C>::Command(EmuCommand::SetSerialPeripheral(peripheral)), now)
            == before,
        before.told(UiToEmu::<C>::Command(EmuCommand::Shutdown), now) == before,
        before.told(UiToEmu::Action(action), now) == before,
{
}

/// What a message carries is what is done: nothing is altered on the way.
pub proof fn law_messages_are_passed_on<C>(
    paused: bool,
    speed: Speed,
    buttons: u8,
    peripheral: SerialPeripheral,
    action: UiAction<C>,
)
    ensures
        step_for(UiToEmu::<C>::Command(EmuCommand::SetPaused(paused))) is Continue,
        step_for(UiToEmu::<C>::Command(EmuCommand::SetSpeed(speed))) matches EmuStep::SetSpeed(s)
            && s == speed,
        step_for(UiToEmu::<C>::Command(EmuCommand::UpdateInput(buttons))) matches
            EmuStep::UpdateInput(b) && b == buttons,
        step_for(UiToEmu::<C>::Command(EmuCommand::SetSerialPeripheral(peripheral))) matches
            EmuStep::SetPeripheral(p) && p == peripheral,
        step_for(UiToEmu::<C>::Command(EmuCommand::Shutdown)) is Shutdown,
        step_for(UiToEmu::Action(action)) matches EmuStep::Apply(a) && a == action,
{
}

/// The loop starts running, with no frame counted and no time owed, and its first
/// frame is due one frame time from now. A reset or a new cartridge has frames
/// counted from nothing too, and keeps the rest.
pub proof fn law_start(before: EmuLoop, speed: Speed, peripheral: SerialPeripheral, now: u64)
    requires
        now + 16_742_706 <= u64::MAX,
    ensures
        ({
            let start = EmuLoop::started(speed, peripheral, now);
            &&& !start.paused
            &&& start.speed == speed
            &&& start.frame_count == 0
            &&& start.next_frame == now + 16_742_706
            &&& start.serial_peripheral == peripheral
            &&& start.mobile_active == (peripheral == SerialPeripheral::MobileAdapter)
            &&& start.mobile_time_accum_ns == 0
        }),
        ({
            let again = before.restarted(now);
            &&& again.frame_count == 0
            &&& again.next_frame == now + 16_742_706
            &&& again.paused == before.paused
            &&& again.speed == before.speed
            &&& again.serial_peripheral == before.serial_peripheral
            &&& again.mobile_active == before.mobile_active
            &&& again.mobile_time_accum_ns == before.mobile_time_accum_ns
        }),
{
}

/// The Mobile Adapter is attached if it was asked for, is there and did not fail to
/// start; then, and only then, its port is plugged in, the loop knows it, and time
/// owed to an earlier one is forgotten. Before, an adapter that is there is started
/// anew if it was asked for, and stopped if not.
pub proof fn law_peripherals(
    before: EmuLoop,
    desired: SerialPeripheral,
    available: bool,
    started: Option<bool>,
    diagnosed: bool,
)
    ensures
        ({
            let attached = mobile_attached(desired, available, started);
            let after = before.with_peripheral(attached);
            let wanted = desired == SerialPeripheral::MobileAdapter;
            &&& wanted && available && (started is None || started == Some(true)) ==> attached
            &&& !wanted || !available || started == Some(false) ==> !attached
            &&& after.mobile_active == attached
            &&& attached ==> after.serial_peripheral == SerialPeripheral::MobileAdapter
            &&& !attached ==> after.serial_peripheral == SerialPeripheral::Unplugged
            &&& after.serial_peripheral == peripheral_for(attached)
            &&& after.mobile_time_accum_ns == 0
            &&& after.paused == before.paused
            &&& after.speed == before.speed
            &&& after.frame_count == before.frame_count
            &&& after.next_frame == before.next_frame
            &&& !attached ==> port_for(attached, diagnosed) == PortChoice::Null
            &&& attached && diagnosed ==> port_for(attached, diagnosed)
                == PortChoice::MobileDiagnosed
            &&& attached && !diagnosed ==> port_for(attached, diagnosed) == PortChoice::Mobile
            &&& wanted && available ==> work_before(desired, available) == AdapterWork::Restart
            &&& !wanted && available ==> work_before(desired, available) == AdapterWork::Stop
            &&& !available ==> work_before(desired, available) == AdapterWork::Nothing
        }),
{
}

/// A run without a window ends with the frame, the cycle or the second that was set
/// as its limit, whichever comes first, and has no end without one.
pub proof fn law_limits(limits: HeadlessLimits, cycles: u64, frames: u64, elapsed: u64)
    ensures
        limits.cycles == Some(cycles) ==> limits.over_within_frame(cycles, elapsed),
        limits.frames == Some(frames) ==> limits.over_after_frame(frames, elapsed),
        limits.cycles matches Some(max) && cycles < max && limits.seconds is None
            ==> !limits.over_within_frame(cycles, elapsed),
        limits.frames matches Some(max) && frames < max && limits.seconds is None
            ==> !limits.over_after_frame(frames, elapsed),
        limits.seconds matches Some(s) && elapsed >= 1_000_000_000 * s ==> limits.over_within_frame(
            cycles,
            elapsed,
        ) && limits.over_after_frame(frames, elapsed),
        limits.seconds matches Some(s) && elapsed < 1_000_000_000 * s && limits.cycles is None
            && limits.frames is None ==> !limits.over_within_frame(cycles, elapsed)
            && !limits.over_after_frame(frames, elapsed),
        limits.seconds is None && limits.cycles is None ==> !limits.over_within_frame(
            cycles,
            elapsed,
        ),
        limits.seconds is None && limits.frames is None ==> !limits.over_after_frame(
            frames,
            elapsed,
        ),
{
}

} // verus!
