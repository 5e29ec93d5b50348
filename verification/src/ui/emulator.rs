//! The loop of the emulator thread.
//!
//! Times are in nanoseconds.

use crate::devices::{Cartridge, Machine};
use crate::gameboy::GameBoy;
use crate::network_link::state::after;
use vstd::prelude::*;

verus! {

/// The time of a frame at 59.7275 frames a second.
pub const FRAME_TIME_NS: u64 = 16_742_706;

/// How much faster the emulation runs while fast-forwarding.
pub const FF_MULT: u32 = 4;

/// Frames between two looks at the serial output.
pub const SERIAL_INTERVAL: u64 = 60;

pub const NANOS_PER_MILLI: u64 = 1_000_000;

/// The speed of emulation.
#[derive(Clone, Copy, Debug, PartialEq, Eq, Structural)]
pub struct Speed {
    pub fast: bool,
}

impl Speed {
    /// How much faster than the hardware the emulation runs.
    pub open spec fn multiple(self) -> u32 {
        if self.fast {
            FF_MULT
        } else {
            1
        }
    }

    /// How much faster than the hardware the emulation runs.
    pub fn factor(self) -> (factor: u32)
        ensures
            factor == self.multiple(),
    {
        if self.fast {
            FF_MULT
        } else {
            1
        }
    }
}

/// What the link cable ends in.
#[derive(Clone, Copy, Debug, PartialEq, Eq, Structural)]
pub enum SerialPeripheral {
    Unplugged,
    MobileAdapter,
}

impl Default for SerialPeripheral {
    fn default() -> (p: Self)
        ensures
            p == SerialPeripheral::Unplugged,
    {
        SerialPeripheral::Unplugged
    }
}

/// What a user does to the machine itself. `C` is a cartridge.
pub enum UiAction<C> {
    Reset,
    Load(C),
}

/// A change in how the emulator runs.
#[derive(Clone, Copy, Debug, PartialEq, Eq, Structural)]
pub enum EmuCommand {
    SetPaused(bool),
    SetSpeed(Speed),
    UpdateInput(u8),
    SetSerialPeripheral(SerialPeripheral),
    Shutdown,
}

/// What the front end tells the emulator thread.
pub enum UiToEmu<C> {
    Command(EmuCommand),
    Action(UiAction<C>),
}

/// What the emulator thread does on a message, beside what the loop itself
/// keeps.
pub enum EmuStep<C> {
    /// Nothing.
    Continue,
    /// Set the speed of the sound unit.
    SetSpeed(Speed),
    /// Hand the state of the buttons to the machine.
    UpdateInput(u8),
    /// Attach a peripheral ([`EmuLoop::apply_serial_peripheral`]).
    SetPeripheral(SerialPeripheral),
    /// Apply an action ([`apply_ui_action`]), then attach the current peripheral
    /// again and report back ([`EmuLoop::action_applied`]).
    Apply(UiAction<C>),
    /// Save the cartridge RAM, stop the Mobile Adapter and end.
    Shutdown,
}

/// What to do with the Mobile Adapter before a peripheral is attached.
#[derive(Clone, Copy, Debug, PartialEq, Eq, Structural)]
pub enum AdapterWork {
    Nothing,
    Stop,
    Restart,
}

/// The link port to plug in.
#[derive(Clone, Copy, Debug, PartialEq, Eq, Structural)]
pub enum PortChoice {
    Null,
    Mobile,
    /// The Mobile Adapter, with every byte logged.
    MobileDiagnosed,
}

/// What has to be done with the adapter before `desired` is attached.
pub open spec fn work_before(desired: SerialPeripheral, mobile_available: bool) -> AdapterWork {
    if !mobile_available {
        AdapterWork::Nothing
    } else if desired is MobileAdapter {
        AdapterWork::Restart
    } else {
        AdapterWork::Stop
    }
}

/// What has to be done with the adapter before `desired` is attached.
pub fn adapter_work(desired: SerialPeripheral, mobile_available: bool) -> (work: AdapterWork)
    ensures
        work == work_before(desired, mobile_available),
{
    if !mobile_available {
        AdapterWork::Nothing
    } else {
        match desired {
            SerialPeripheral::Unplugged => AdapterWork::Stop,
            SerialPeripheral::MobileAdapter => AdapterWork::Restart,
        }
    }
}

/// Whether the Mobile Adapter ends up attached. `started` is how starting it
/// went, if it could be reached at all.
pub open spec fn mobile_attached(
    desired: SerialPeripheral,
    mobile_available: bool,
    started: Option<bool>,
) -> bool {
    desired is MobileAdapter && mobile_available && started != Some(false)
}

/// The port that is plugged in.
pub open spec fn port_for(attached: bool, mobile_diag: bool) -> PortChoice {
    if !attached {
        PortChoice::Null
    } else if mobile_diag {
        PortChoice::MobileDiagnosed
    } else {
        PortChoice::Mobile
    }
}

/// The peripheral that the cable ends in.
pub open spec fn peripheral_for(attached: bool) -> SerialPeripheral {
    if attached {
        SerialPeripheral::MobileAdapter
    } else {
        SerialPeripheral::Unplugged
    }
}

/// The peripheral and the port that a wish ends up with.
pub fn settle_peripheral(
    desired: SerialPeripheral,
    mobile_available: bool,
    started: Option<bool>,
    mobile_diag: bool,
) -> (settled: (SerialPeripheral, PortChoice))
    ensures
        settled.0 == peripheral_for(mobile_attached(desired, mobile_available, started)),
        settled.1 == port_for(mobile_attached(desired, mobile_available, started), mobile_diag),
{
    match desired {
        SerialPeripheral::Unplugged => (SerialPeripheral::Unplugged, PortChoice::Null),
        SerialPeripheral::MobileAdapter => {
            let failed = match started {
                Some(ok) => !ok,
                None => false,
            };
            if !mobile_available || failed {
                (SerialPeripheral::Unplugged, PortChoice::Null)
            } else if mobile_diag {
                (SerialPeripheral::MobileAdapter, PortChoice::MobileDiagnosed)
            } else {
                (SerialPeripheral::MobileAdapter, PortChoice::Mobile)
            }
        },
    }
}

/// The state of the emulator thread.
#[derive(Clone, Copy, Debug, PartialEq, Eq, Structural)]
pub struct EmuLoop {
    pub paused: bool,
    pub speed: Speed,
    /// Frames since the last reset.
    pub frame_count: u64,
    /// When the next frame is due.
    pub next_frame: u64,
    pub serial_peripheral: SerialPeripheral,
    pub mobile_active: bool,
    /// Emulated time that the Mobile Adapter was not told of yet.
    pub mobile_time_accum_ns: u64,
}

impl EmuLoop {
    /// Less than a millisecond is kept back from the Mobile Adapter.
    pub open spec fn wf(self) -> bool {
        self.mobile_time_accum_ns < NANOS_PER_MILLI
    }

    /// The loop as it starts.
    pub open spec fn started(speed: Speed, serial_peripheral: SerialPeripheral, now: u64) -> Self {
        EmuLoop {
            paused: false,
            speed,
            frame_count: 0,
            next_frame: after(now, FRAME_TIME_NS),
            serial_peripheral,
            mobile_active: serial_peripheral is MobileAdapter,
            mobile_time_accum_ns: 0,
        }
    }

    pub fn new(speed: Speed, serial_peripheral: SerialPeripheral, now: u64) -> (s: Self)
        ensures
            s.wf(),
            s == Self::started(speed, serial_peripheral, now),
    {
        EmuLoop {
            paused: false,
            speed,
            frame_count: 0,
            next_frame: now.saturating_add(FRAME_TIME_NS),
            serial_peripheral,
            mobile_active: serial_peripheral == SerialPeripheral::MobileAdapter,
            mobile_time_accum_ns: 0,
        }
    }

    /// The loop after a peripheral was attached. No time is owed to an adapter
    /// that was attached just now.
    pub open spec fn with_peripheral(self, attached: bool) -> Self {
        EmuLoop {
            mobile_active: attached,
            serial_peripheral: peripheral_for(attached),
            mobile_time_accum_ns: 0,
            ..self
        }
    }

    /// Attach a peripheral, once [`adapter_work`] is done: the adapter is
    /// attached if it is there and did not fail to start. Otherwise nothing is.
    pub fn apply_serial_peripheral(
        &mut self,
        desired: SerialPeripheral,
        mobile_available: bool,
        started: Option<bool>,
        mobile_diag: bool,
    ) -> (port: PortChoice)
        ensures
            final(self).wf(),
            *final(self) == old(self).with_peripheral(
                mobile_attached(desired, mobile_available, started),
            ),
            port == port_for(mobile_attached(desired, mobile_available, started), mobile_diag),
    {
        let (settled, port) = settle_peripheral(desired, mobile_available, started, mobile_diag);
        self.mobile_active = settled == SerialPeripheral::MobileAdapter;
        self.serial_peripheral = settled;
        self.mobile_time_accum_ns = 0;
        port
    }

    /// The loop after a message.
    pub open spec fn told<C>(self, msg: UiToEmu<C>, now: u64) -> Self {
        match msg {
            UiToEmu::Command(EmuCommand::SetPaused(paused)) => EmuLoop {
                paused,
                next_frame: after(now, FRAME_TIME_NS),
                ..self
            },
            UiToEmu::Command(EmuCommand::SetSpeed(speed)) => EmuLoop {
                speed,
                next_frame: after(now, FRAME_TIME_NS),
                ..self
            },
            _ => self,
        }
    }

    /// Take a message from the front end.
    pub fn message<C>(&mut self, msg: UiToEmu<C>, now: u64) -> (step: EmuStep<C>)
        ensures
            *final(self) == old(self).told(msg, now),
            step == step_for(msg),
    {
        match msg {
            UiToEmu::Command(cmd) => match cmd {
                EmuCommand::SetPaused(paused) => {
                    self.paused = paused;
                    self.next_frame = now.saturating_add(FRAME_TIME_NS);
                    EmuStep::Continue
                },
                EmuCommand::SetSpeed(speed) => {
                    self.speed = speed;
                    self.next_frame = now.saturating_add(FRAME_TIME_NS);
                    EmuStep::SetSpeed(speed)
                },
                EmuCommand::UpdateInput(state) => EmuStep::UpdateInput(state),
                EmuCommand::SetSerialPeripheral(p) => EmuStep::SetPeripheral(p),
                EmuCommand::Shutdown => EmuStep::Shutdown,
            },
            UiToEmu::Action(action) => EmuStep::Apply(action),
        }
    }

    /// The loop after an action was applied.
    pub open spec fn restarted(self, now: u64) -> Self {
        EmuLoop { frame_count: 0, next_frame: after(now, FRAME_TIME_NS), ..self }
    }

    /// An action was applied: frames are counted and paced anew.
    pub fn action_applied(&mut self, now: u64)
        ensures
            *final(self) == old(self).restarted(now),
    {
        self.frame_count = 0;
        self.next_frame = now.saturating_add(FRAME_TIME_NS);
    }

    /// Whether a frame took too long.
    pub open spec fn is_over_budget(self, elapsed: u64) -> bool {
        !self.speed.fast && elapsed > FRAME_TIME_NS + FRAME_TIME_NS / 2
    }

    /// Whether the time that a frame took is worth a warning: more than one and
    /// a half times what it may take, unless fast-forwarding.
    pub fn over_budget(&self, elapsed: u64) -> (over: bool)
        ensures
            over == self.is_over_budget(elapsed),
    {
        !self.speed.fast && elapsed > FRAME_TIME_NS + FRAME_TIME_NS / 2
    }

    /// Whether the serial output is looked at after this frame.
    pub open spec fn is_serial_due(self, debug: bool) -> bool {
        debug && self.frame_count % SERIAL_INTERVAL == 0
    }

    /// Whether to look at the serial output after this frame.
    pub fn serial_due(&self, debug: bool) -> (due: bool)
        ensures
            due == self.is_serial_due(debug),
    {
        debug && self.frame_count % SERIAL_INTERVAL == 0
    }

    /// The loop after a frame.
    pub open spec fn after_frame(self, mobile_available: bool) -> Self {
        EmuLoop {
            frame_count: if self.frame_count == u64::MAX {
                0
            } else {
                (self.frame_count + 1) as u64
            },
            mobile_time_accum_ns: if self.mobile_active && mobile_available {
                ((self.mobile_time_accum_ns + FRAME_TIME_NS) % NANOS_PER_MILLI as int) as u64
            } else {
                self.mobile_time_accum_ns
            },
            ..self
        }
    }

    /// The whole milliseconds that the Mobile Adapter is told of after a frame.
    pub open spec fn told_after_frame(self, mobile_available: bool) -> Option<u32> {
        let ms = (self.mobile_time_accum_ns + FRAME_TIME_NS) / NANOS_PER_MILLI as int;
        if self.mobile_active && mobile_available && ms != 0 {
            Some(ms as u32)
        } else {
            None
        }
    }

    /// Count a frame. The result is the number of whole milliseconds to advance
    /// the Mobile Adapter by, if any.
    pub fn frame_done(&mut self, mobile_available: bool) -> (poll_ms: Option<u32>)
        requires
            old(self).wf(),
        ensures
            final(self).wf(),
            *final(self) == old(self).after_frame(mobile_available),
            poll_ms == old(self).told_after_frame(mobile_available),
    {
        self.frame_count = self.frame_count.wrapping_add(1);
        if self.mobile_active && mobile_available {
            let total: u64 = self.mobile_time_accum_ns + FRAME_TIME_NS;
            let delta_ms: u32 = (total / NANOS_PER_MILLI) as u32;
            self.mobile_time_accum_ns = total % NANOS_PER_MILLI;
            if delta_ms != 0 {
                Some(delta_ms)
            } else {
                None
            }
        } else {
            None
        }
    }

    /// The loop after it was paced.
    pub open spec fn paced(self, now: u64) -> Self {
        EmuLoop {
            next_frame: if self.speed.fast {
                now
            } else {
                after(self.next_frame, FRAME_TIME_NS)
            },
            ..self
        }
    }

    /// How long it is until the next frame is due.
    pub open spec fn sleep_until_due(self, now: u64) -> Option<u64> {
        if !self.speed.fast && now < self.next_frame {
            Some((self.next_frame - now) as u64)
        } else {
            None
        }
    }

    /// How long to sleep until the next frame is due, if at all. While
    /// fast-forwarding the next frame is due at once.
    pub fn pace(&mut self, now: u64) -> (sleep: Option<u64>)
        ensures
            *final(self) == old(self).paced(now),
            sleep == old(self).sleep_until_due(now),
    {
        if !self.speed.fast {
            let sleep = if now < self.next_frame {
                Some(self.next_frame - now)
            } else {
                None
            };
            self.next_frame = self.next_frame.saturating_add(FRAME_TIME_NS);
            sleep
        } else {
            self.next_frame = now;
            None
        }
    }
}

/// What the emulator thread does on a message.
pub open spec fn step_for<C>(msg: UiToEmu<C>) -> EmuStep<C> {
    match msg {
        UiToEmu::Command(EmuCommand::SetPaused(_)) => EmuStep::Continue,
        UiToEmu::Command(EmuCommand::SetSpeed(speed)) => EmuStep::SetSpeed(speed),
        UiToEmu::Command(EmuCommand::UpdateInput(state)) => EmuStep::UpdateInput(state),
        UiToEmu::Command(EmuCommand::SetSerialPeripheral(p)) => EmuStep::SetPeripheral(p),
        UiToEmu::Command(EmuCommand::Shutdown) => EmuStep::Shutdown,
        UiToEmu::Action(action) => EmuStep::Apply(action),
    }
}

/// Apply an action to the machine: a reset, and then the new cartridge, if
/// there is one.
pub fn apply_ui_action<M: Machine>(action: UiAction<Cartridge<M::Cart>>, gb: &mut GameBoy<M>)
    ensures
        final(gb).wf(),
        action_applies(*old(gb), action, *final(gb)),
{
    match action {
        UiAction::Reset => {
            gb.reset();
        },
        UiAction::Load(cart) => {
            gb.reset();
            let ghost mid = *gb;
            gb.mmu.load_cart(cart);
            proof {
                assert(old(gb).resets(mid));
            }
        },
    }
}

/// `gb` may become `after` by `action`.
pub open spec fn action_applies<M: Machine>(
    gb: GameBoy<M>,
    action: UiAction<Cartridge<M::Cart>>,
    after: GameBoy<M>,
) -> bool {
    match action {
        UiAction::Reset => gb.resets(after),
        UiAction::Load(cart) => exists|mid: GameBoy<M>| #[trigger]
            gb.resets(mid) && mid.mmu.loads_cart(cart, after.mmu) && after == (GameBoy {
                mmu: after.mmu,
                ..mid
            }),
    }
}

/// Limits on a run without a window.
#[derive(Clone, Copy, Debug, PartialEq, Eq, Structural)]
pub struct HeadlessLimits {
    pub frames: Option<u64>,
    pub cycles: Option<u64>,
    pub seconds: Option<u64>,
}

impl HeadlessLimits {
    /// Whether the time is up.
    pub open spec fn timed_out(self, elapsed: u64) -> bool {
        self.seconds is Some && elapsed >= self.seconds->0 * 1_000_000_000
    }

    fn time_is_up(&self, elapsed: u64) -> (up: bool)
        ensures
            up == self.timed_out(elapsed),
    {
        match self.seconds {
            Some(limit) => elapsed as u128 >= limit as u128 * 1_000_000_000,
            None => false,
        }
    }

    /// Whether the run is over after an instruction within a frame.
    pub open spec fn over_within_frame(self, cycles: u64, elapsed: u64) -> bool {
        self.cycles is Some && cycles >= self.cycles->0 || self.timed_out(elapsed)
    }

    /// Whether the run is over after `frame_count` whole frames.
    pub open spec fn over_after_frame(self, frame_count: u64, elapsed: u64) -> bool {
        self.frames is Some && frame_count >= self.frames->0 || self.timed_out(elapsed)
    }

    /// Whether to stop after an instruction within a frame.
    pub fn stops_within_frame(&self, cycles: u64, elapsed: u64) -> (stop: bool)
        ensures
            stop == self.over_within_frame(cycles, elapsed),
    {
        match self.cycles {
            Some(max) => cycles >= max || self.time_is_up(elapsed),
            None => self.time_is_up(elapsed),
        }
    }

    /// Whether to stop after `frame_count` whole frames.
    pub fn stops_after_frame(&self, frame_count: u64, elapsed: u64) -> (stop: bool)
        ensures
            stop == self.over_after_frame(frame_count, elapsed),
    {
        match self.frames {
            Some(max) => frame_count >= max || self.time_is_up(elapsed),
            None => self.time_is_up(elapsed),
        }
    }
}

/// The milliseconds that the Mobile Adapter is told of in `n` frames, and what
/// is kept back at the end.
pub open spec fn mobile_time(accum: nat, n: nat) -> (nat, nat)
    decreases n,
{
    if n == 0 {
        (0, accum)
    } else {
        let (ms, kept) = mobile_time(accum, (n - 1) as nat);
        let total = kept + FRAME_TIME_NS as nat;
        (ms + total / (NANOS_PER_MILLI as nat), total % (NANOS_PER_MILLI as nat))
    }
}

/// The Mobile Adapter's clock does not drift: what it is told, plus what is
/// kept back, is the emulated time, to the nanosecond.
pub proof fn law_mobile_time_does_not_drift(accum: nat, n: nat)
    requires
        accum < NANOS_PER_MILLI,
    ensures
        mobile_time(accum, n).0 * NANOS_PER_MILLI + mobile_time(accum, n).1 == accum + n
            * FRAME_TIME_NS,
        mobile_time(accum, n).1 < NANOS_PER_MILLI,
    decreases n,
{
    if n > 0 {
        law_mobile_time_does_not_drift(accum, (n - 1) as nat);
    }
}

/// The loop after `n` frames, paced at the moments `nows`.
pub open spec fn paced_frames(start: EmuLoop, nows: Seq<u64>) -> EmuLoop
    decreases nows.len(),
{
    if nows.len() == 0 {
        start
    } else {
        paced_frames(start, nows.drop_last()).paced(nows.last())
    }
}

/// At normal speed frames are due exactly one frame time apart, however long
/// each of them took.
pub proof fn law_frames_are_due_one_frame_apart(start: EmuLoop, nows: Seq<u64>)
    requires
        !start.speed.fast,
        start.next_frame + nows.len() * FRAME_TIME_NS <= u64::MAX,
    ensures
        paced_frames(start, nows) == (EmuLoop {
            next_frame: (start.next_frame + nows.len() * FRAME_TIME_NS) as u64,
            ..start
        }),
    decreases nows.len(),
{
    if nows.len() > 0 {
        law_frames_are_due_one_frame_apart(start, nows.drop_last());
    }
}

/// The loop after messages, each with the moment at which it is taken.
pub open spec fn told_all<C>(start: EmuLoop, msgs: Seq<(UiToEmu<C>, u64)>) -> EmuLoop
    decreases msgs.len(),
{
    if msgs.len() == 0 {
        start
    } else {
        told_all(start, msgs.drop_last()).told(msgs.last().0, msgs.last().1)
    }
}

/// The last command to pause or resume counts, whatever else was sent.
pub proof fn law_last_pause_command_counts<C>(
    start: EmuLoop,
    msgs: Seq<(UiToEmu<C>, u64)>,
    last: int,
    paused: bool,
)
    requires
        0 <= last < msgs.len(),
        msgs[last].0 == UiToEmu::<C>::Command(EmuCommand::SetPaused(paused)),
        forall|i: int|
            last < i < msgs.len() ==> !(#[trigger] msgs[i].0 matches UiToEmu::Command(
                EmuCommand::SetPaused(_),
            )),
    ensures
        told_all(start, msgs).paused == paused,
    decreases msgs.len(),
{
    if last < msgs.len() - 1 {
        law_last_pause_command_counts(start, msgs.drop_last(), last, paused);
        assert(!(msgs[msgs.len() - 1].0 matches UiToEmu::Command(EmuCommand::SetPaused(_))));
    }
}

/// A reset or a new cartridge does not change what the cable ends in: attaching
/// the current peripheral again keeps it, if the adapter is still there.
pub proof fn law_peripheral_survives_reset(s: EmuLoop, started: Option<bool>)
    requires
        started != Some(false),
        s.mobile_active == (s.serial_peripheral is MobileAdapter),
    ensures
        s.with_peripheral(mobile_attached(s.serial_peripheral, true, started)) == (EmuLoop {
            mobile_time_accum_ns: 0,
            ..s
        }),
{
}

/// A loaded cartridge ends up in the slot, and the boot ROM is kept and mapped.
pub proof fn law_load_puts_cartridge_in<M: Machine>(
    gb: GameBoy<M>,
    cart: Cartridge<M::Cart>,
    after: GameBoy<M>,
)
    requires
        action_applies(gb, UiAction::Load(cart), after),
    ensures
        after.mmu.cart == Some(cart),
        after.mmu.boot_rom == gb.mmu.boot_rom,
        after.mmu.boot_mapped == (gb.mmu.boot_rom is Some),
        after.is_model(gb.cgb, gb.dmg_revision, gb.cgb_revision),
{
    let mid = choose|mid: GameBoy<M>| #[trigger]
        gb.resets(mid) && mid.mmu.loads_cart(cart, after.mmu) && after == (GameBoy {
            mmu: after.mmu,
            ..mid
        });
    crate::gameboy::law_reset_keeps_cartridge_and_boot_rom(gb, mid);
}

} // verus!
