//! Register-level driver for the physical-layer transceiver.
//!
//! The transceiver is reached over a two-wire management bus that moves one
//! 16-bit register at a time. This module holds the two registers the node
//! uses, as plain words with named bits, and a sequencer that decides which
//! bus operation comes next. The sequencer never touches the bus itself: the
//! caller performs each operation and reports back what happened.
use vstd::prelude::*;

verus! {

/// Bus address of the transceiver.
pub const PHY_ADDR: u8 = 0;

/// Pause between two polls of the soft-reset bit, in milliseconds.
pub const RESET_POLL_MS: u32 = 1;

/// Pause between two polls of the link bit while waiting for a link, in
/// milliseconds.
pub const LINK_POLL_MS: u32 = 100;

/// Whether bit `index` (least significant bit first) of `word` is set.
pub open spec fn bit(word: u16, index: u16) -> bool {
    (word >> index) & 1 == 1
}

/// `word` with bit `index` forced to `value` and every other bit kept.
pub open spec fn with_bit(word: u16, index: u16, value: bool) -> u16 {
    if value {
        word | (1u16 << index)
    } else {
        word & !(1u16 << index)
    }
}

/// Writing one bit changes that bit and no other.
pub proof fn lemma_with_bit(word: u16, index: u16, other: u16, value: bool)
    by (bit_vector)
    requires
        index < 16,
        other < 16,
    ensures
        bit(with_bit(word, index, value), other) == (if other == index {
            value
        } else {
            bit(word, other)
        }),
{
}

/// Writing a bit at position 7 or above keeps the low seven bits.
pub proof fn lemma_with_bit_keeps_low(word: u16, index: u16, value: bool)
    by (bit_vector)
    requires
        7 <= index < 16,
    ensures
        with_bit(word, index, value) & 0x7f == word & 0x7f,
{
}

fn read_bit(word: u16, index: u16) -> (set: bool)
    requires
        index < 16,
    ensures
        set == bit(word, index),
{
    (word >> index) & 1 == 1
}

fn write_bit(word: u16, index: u16, value: bool) -> (written: u16)
    requires
        index < 16,
    ensures
        written == with_bit(word, index, value),
{
    if value {
        word | (1u16 << index)
    } else {
        word & !(1u16 << index)
    }
}

/// The fields of the basic mode control register.
pub struct BmcrView {
    /// Bits 0 to 6, which carry no meaning and are kept as read.
    pub reserved: u16,
    pub collision_test: bool,
    pub force_fd: bool,
    pub restart_an: bool,
    pub isolate: bool,
    pub power_down: bool,
    pub an_enable: bool,
    pub force_100: bool,
    pub loopback: bool,
    pub soft_reset: bool,
}

/// Basic mode control register.
#[derive(Clone, Copy, Debug, PartialEq, Eq, Structural)]
pub struct Bmcr(pub u16);

/// The fields that a control word packs.
pub open spec fn control_fields(word: u16) -> BmcrView {
    BmcrView {
        reserved: word & 0x7f,
        collision_test: bit(word, 7),
        force_fd: bit(word, 8),
        restart_an: bit(word, 9),
        isolate: bit(word, 10),
        power_down: bit(word, 11),
        an_enable: bit(word, 12),
        force_100: bit(word, 13),
        loopback: bit(word, 14),
        soft_reset: bit(word, 15),
    }
}

impl View for Bmcr {
    type V = BmcrView;

    open spec fn view(&self) -> BmcrView {
        control_fields(self.0)
    }
}

impl From<u16> for Bmcr {
    fn from(word: u16) -> (register: Bmcr) {
        Bmcr(word)
    }
}

impl vstd::std_specs::convert::FromSpecImpl<u16> for Bmcr {
    open spec fn obeys_from_spec() -> bool {
        true
    }

    open spec fn from_spec(word: u16) -> Bmcr {
        Bmcr(word)
    }
}

impl From<Bmcr> for u16 {
    fn from(register: Bmcr) -> (word: u16) {
        register.0
    }
}

impl vstd::std_specs::convert::FromSpecImpl<Bmcr> for u16 {
    open spec fn obeys_from_spec() -> bool {
        true
    }

    open spec fn from_spec(register: Bmcr) -> u16 {
        register.0
    }
}

impl Bmcr {
    /// Register address on the management bus.
    pub const ADDRESS: u8 = 0x00;

    /// A control word with every bit clear.
    pub fn new() -> (register: Bmcr)
        ensures
            register.0 == 0,
    {
        Bmcr(0)
    }

    pub fn collision_test(&self) -> (set: bool)
        ensures
            set == self@.collision_test,
    {
        read_bit(self.0, 7)
    }

    pub fn force_fd(&self) -> (set: bool)
        ensures
            set == self@.force_fd,
    {
        read_bit(self.0, 8)
    }

    pub fn restart_an(&self) -> (set: bool)
        ensures
            set == self@.restart_an,
    {
        read_bit(self.0, 9)
    }

    pub fn isolate(&self) -> (set: bool)
        ensures
            set == self@.isolate,
    {
        read_bit(self.0, 10)
    }

    pub fn power_down(&self) -> (set: bool)
        ensures
            set == self@.power_down,
    {
        read_bit(self.0, 11)
    }

    pub fn an_enable(&self) -> (set: bool)
        ensures
            set == self@.an_enable,
    {
        read_bit(self.0, 12)
    }

    pub fn force_100(&self) -> (set: bool)
        ensures
            set == self@.force_100,
    {
        read_bit(self.0, 13)
    }

    pub fn loopback(&self) -> (set: bool)
        ensures
            set == self@.loopback,
    {
        read_bit(self.0, 14)
    }

    pub fn soft_reset(&self) -> (set: bool)
        ensures
            set == self@.soft_reset,
    {
        read_bit(self.0, 15)
    }

    /// What writing one flag does to the fields: the flag at `index` takes
    /// `value`, each other field stays.
    pub proof fn lemma_write_flag(word: u16, index: u16, value: bool)
        requires
            7 <= index < 16,
        ensures
            control_fields(with_bit(word, index, value)).reserved == control_fields(word).reserved,
            forall|other: u16|
                7 <= other < 16 ==> #[trigger] bit(with_bit(word, index, value), other) == (if other
                    == index {
                    value
                } else {
                    bit(word, other)
                }),
    {
        lemma_with_bit_keeps_low(word, index, value);
        assert forall|other: u16| 7 <= other < 16 implies #[trigger] bit(
            with_bit(word, index, value),
            other,
        ) == (if other == index {
            value
        } else {
            bit(word, other)
        }) by {
            lemma_with_bit(word, index, other, value);
        }
    }

    pub fn set_collision_test(&mut self, value: bool)
        ensures
            final(self)@ == (BmcrView { collision_test: value, ..old(self)@ }),
    {
        proof {
            Self::lemma_write_flag(self.0, 7, value);
        }
        self.0 = write_bit(self.0, 7, value);
    }

    pub fn set_force_fd(&mut self, value: bool)
        ensures
            final(self)@ == (BmcrView { force_fd: value, ..old(self)@ }),
    {
        proof {
            Self::lemma_write_flag(self.0, 8, value);
        }
        self.0 = write_bit(self.0, 8, value);
    }

    pub fn set_restart_an(&mut self, value: bool)
        ensures
            final(self)@ == (BmcrView { restart_an: value, ..old(self)@ }),
    {
        proof {
            Self::lemma_write_flag(self.0, 9, value);
        }
        self.0 = write_bit(self.0, 9, value);
    }

    pub fn set_isolate(&mut self, value: bool)
        ensures
            final(self)@ == (BmcrView { isolate: value, ..old(self)@ }),
    {
        proof {
            Self::lemma_write_flag(self.0, 10, value);
        }
        self.0 = write_bit(self.0, 10, value);
    }

    pub fn set_power_down(&mut self, value: bool)
        ensures
            final(self)@ == (BmcrView { power_down: value, ..old(self)@ }),
    {
        proof {
            Self::lemma_write_flag(self.0, 11, value);
        }
        self.0 = write_bit(self.0, 11, value);
    }

    pub fn set_an_enable(&mut self, value: bool)
        ensures
            final(self)@ == (BmcrView { an_enable: value, ..old(self)@ }),
    {
        proof {
            Self::lemma_write_flag(self.0, 12, value);
        }
        self.0 = write_bit(self.0, 12, value);
    }

    pub fn set_force_100(&mut self, value: bool)
        ensures
            final(self)@ == (BmcrView { force_100: value, ..old(self)@ }),
    {
        proof {
            Self::lemma_write_flag(self.0, 13, value);
        }
        self.0 = write_bit(self.0, 13, value);
    }

    pub fn set_loopback(&mut self, value: bool)
        ensures
            final(self)@ == (BmcrView { loopback: value, ..old(self)@ }),
    {
        proof {
            Self::lemma_write_flag(self.0, 14, value);
        }
        self.0 = write_bit(self.0, 14, value);
    }

    pub fn set_soft_reset(&mut self, value: bool)
        ensures
            final(self)@ == (BmcrView { soft_reset: value, ..old(self)@ }),
    {
        proof {
            Self::lemma_write_flag(self.0, 15, value);
        }
        self.0 = write_bit(self.0, 15, value);
    }
}

/// A control word is determined by its fields: packing loses nothing.
pub proof fn lemma_control_fields_determine_word(a: u16, b: u16)
    requires
        control_fields(a) == control_fields(b),
    ensures
        a == b,
{
    assert(a == b) by (bit_vector)
        requires
            a & 0x7f == b & 0x7f,
            bit(a, 7) == bit(b, 7),
            bit(a, 8) == bit(b, 8),
            bit(a, 9) == bit(b, 9),
            bit(a, 10) == bit(b, 10),
            bit(a, 11) == bit(b, 11),
            bit(a, 12) == bit(b, 12),
            bit(a, 13) == bit(b, 13),
            bit(a, 14) == bit(b, 14),
            bit(a, 15) == bit(b, 15),
    ;
}

/// The fields of the basic mode status register.
pub struct BmsrView {
    pub extended_capable: bool,
    pub jabber_test: bool,
    pub link_status: bool,
    pub an_capable: bool,
    pub remote_fault: bool,
    pub an_complete: bool,
    /// Bits 6 to 10, which carry no meaning.
    pub reserved: u16,
    pub capable_10_hd: bool,
    pub capable_10_fd: bool,
    pub capable_100_hd: bool,
    pub capable_100_fd: bool,
    pub capable_t4: bool,
}

/// Basic mode status register.
#[derive(Clone, Copy, Debug, PartialEq, Eq, Structural)]
pub struct Bmsr(pub u16);

/// The fields that a status word packs.
pub open spec fn status_fields(word: u16) -> BmsrView {
    BmsrView {
        extended_capable: bit(word, 0),
        jabber_test: bit(word, 1),
        link_status: bit(word, 2),
        an_capable: bit(word, 3),
        remote_fault: bit(word, 4),
        an_complete: bit(word, 5),
        reserved: (word >> 6) & 0x1f,
        capable_10_hd: bit(word, 11),
        capable_10_fd: bit(word, 12),
        capable_100_hd: bit(word, 13),
        capable_100_fd: bit(word, 14),
        capable_t4: bit(word, 15),
    }
}

/// A status word is determined by its fields: packing loses nothing.
pub proof fn lemma_status_fields_determine_word(a: u16, b: u16)
    requires
        status_fields(a) == status_fields(b),
    ensures
        a == b,
{
    assert(a == b) by (bit_vector)
        requires
            bit(a, 0) == bit(b, 0),
            bit(a, 1) == bit(b, 1),
            bit(a, 2) == bit(b, 2),
            bit(a, 3) == bit(b, 3),
            bit(a, 4) == bit(b, 4),
            bit(a, 5) == bit(b, 5),
            (a >> 6) & 0x1f == (b >> 6) & 0x1f,
            bit(a, 11) == bit(b, 11),
            bit(a, 12) == bit(b, 12),
            bit(a, 13) == bit(b, 13),
            bit(a, 14) == bit(b, 14),
            bit(a, 15) == bit(b, 15),
    ;
}

impl View for Bmsr {
    type V = BmsrView;

    open spec fn view(&self) -> BmsrView {
        status_fields(self.0)
    }
}

impl From<u16> for Bmsr {
    fn from(word: u16) -> (register: Bmsr) {
        Bmsr(word)
    }
}

impl vstd::std_specs::convert::FromSpecImpl<u16> for Bmsr {
    open spec fn obeys_from_spec() -> bool {
        true
    }

    open spec fn from_spec(word: u16) -> Bmsr {
        Bmsr(word)
    }
}

impl From<Bmsr> for u16 {
    fn from(register: Bmsr) -> (word: u16) {
        register.0
    }
}

impl vstd::std_specs::convert::FromSpecImpl<Bmsr> for u16 {
    open spec fn obeys_from_spec() -> bool {
        true
    }

    open spec fn from_spec(register: Bmsr) -> u16 {
        register.0
    }
}

impl Bmsr {
    /// Register address on the management bus.
    pub const ADDRESS: u8 = 0x01;

    pub fn extended_capable(&self) -> (set: bool)
        ensures
            set == self@.extended_capable,
    {
        read_bit(self.0, 0)
    }

    pub fn jabber_test(&self) -> (set: bool)
        ensures
            set == self@.jabber_test,
    {
        read_bit(self.0, 1)
    }

    pub fn link_status(&self) -> (set: bool)
        ensures
            set == self@.link_status,
    {
        read_bit(self.0, 2)
    }

    pub fn an_capable(&self) -> (set: bool)
        ensures
            set == self@.an_capable,
    {
        read_bit(self.0, 3)
    }

    pub fn remote_fault(&self) -> (set: bool)
        ensures
            set == self@.remote_fault,
    {
        read_bit(self.0, 4)
    }

    pub fn an_complete(&self) -> (set: bool)
        ensures
            set == self@.an_complete,
    {
        read_bit(self.0, 5)
    }

    pub fn capable_10_hd(&self) -> (set: bool)
        ensures
            set == self@.capable_10_hd,
    {
        read_bit(self.0, 11)
    }

    pub fn capable_10_fd(&self) -> (set: bool)
        ensures
            set == self@.capable_10_fd,
    {
        read_bit(self.0, 12)
    }

    pub fn capable_100_hd(&self) -> (set: bool)
        ensures
            set == self@.capable_100_hd,
    {
        read_bit(self.0, 13)
    }

    pub fn capable_100_fd(&self) -> (set: bool)
        ensures
            set == self@.capable_100_fd,
    {
        read_bit(self.0, 14)
    }

    pub fn capable_t4(&self) -> (set: bool)
        ensures
            set == self@.capable_t4,
    {
        read_bit(self.0, 15)
    }
}

/// One operation on the management bus, or the end of a procedure.
#[derive(Clone, Copy, Debug, PartialEq, Eq, Structural)]
pub enum PhyAction {
    /// Read register `reg` of the device at `phy` and report the word.
    Read { phy: u8, reg: u8 },
    /// Write `data` to register `reg` of the device at `phy`.
    Write { phy: u8, reg: u8, data: u16 },
    /// Let this many milliseconds pass.
    DelayMs(u32),
    /// The procedure is complete and nothing is left to do.
    Done,
    /// A link query is complete: the link is up or down.
    LinkStatus(bool),
}

/// What the caller reports after performing a `PhyAction`.
#[derive(Clone, Copy, Debug, PartialEq, Eq, Structural)]
pub enum BusEvent {
    /// A read returned this word.
    Value(u16),
    /// A write went out.
    Written,
    /// A delay has passed.
    Elapsed,
}

/// Where the driver stands in its current procedure.
#[derive(Clone, Copy, Debug, PartialEq, Eq, Structural)]
pub enum PhyState {
    /// No procedure is running.
    Idle,
    /// Reset: the control word is being read.
    ResetRead,
    /// Reset: this word, with the soft-reset bit set, is being written.
    ResetWrite(u16),
    /// Reset: pausing before the next poll.
    ResetDelay,
    /// Reset: the control word is being polled.
    ResetPoll,
    /// Setup: the control word is being read.
    SetupRead,
    /// Setup: this word, with the forced mode set, is being written.
    SetupWrite(u16),
    /// Link query: the status word is being read.
    LinkRead,
    /// Link wait: the status word is being polled.
    WaitPoll,
    /// Link wait: pausing before the next poll.
    WaitDelay,
}

/// The control word that starts a soft reset: the word read, with the
/// soft-reset bit set.
pub open spec fn reset_request(control: u16) -> u16 {
    with_bit(control, 15, true)
}

/// The control word that forces full duplex at 100 Mb/s: the word read, with
/// both mode bits set and auto-negotiation switched off.
pub open spec fn forced_mode(control: u16) -> u16 {
    with_bit(with_bit(with_bit(control, 8, true), 12, false), 13, true)
}

/// The action a state is waiting on. An idle driver waits on nothing.
pub open spec fn pending(state: PhyState) -> PhyAction {
    match state {
        PhyState::Idle => PhyAction::Done,
        PhyState::ResetRead | PhyState::ResetPoll | PhyState::SetupRead => PhyAction::Read {
            phy: PHY_ADDR,
            reg: Bmcr::ADDRESS,
        },
        PhyState::ResetWrite(data) | PhyState::SetupWrite(data) => PhyAction::Write {
            phy: PHY_ADDR,
            reg: Bmcr::ADDRESS,
            data,
        },
        PhyState::ResetDelay => PhyAction::DelayMs(RESET_POLL_MS),
        PhyState::LinkRead | PhyState::WaitPoll => PhyAction::Read {
            phy: PHY_ADDR,
            reg: Bmsr::ADDRESS,
        },
        PhyState::WaitDelay => PhyAction::DelayMs(LINK_POLL_MS),
    }
}

/// The state that follows `state` once `event` is reported. An event that
/// the state is not waiting on changes nothing.
pub open spec fn next_state(state: PhyState, event: BusEvent) -> PhyState {
    match (state, event) {
        (PhyState::ResetRead, BusEvent::Value(word)) => PhyState::ResetWrite(reset_request(word)),
        (PhyState::ResetWrite(_), BusEvent::Written) => PhyState::ResetDelay,
        (PhyState::ResetDelay, BusEvent::Elapsed) => PhyState::ResetPoll,
        (PhyState::ResetPoll, BusEvent::Value(word)) => if bit(word, 15) {
            PhyState::ResetDelay
        } else {
            PhyState::Idle
        },
        (PhyState::SetupRead, BusEvent::Value(word)) => PhyState::SetupWrite(forced_mode(word)),
        (PhyState::SetupWrite(_), BusEvent::Written) => PhyState::Idle,
        (PhyState::LinkRead, BusEvent::Value(_)) => PhyState::Idle,
        (PhyState::WaitPoll, BusEvent::Value(word)) => if bit(word, 2) {
            PhyState::Idle
        } else {
            PhyState::WaitDelay
        },
        (PhyState::WaitDelay, BusEvent::Elapsed) => PhyState::WaitPoll,
        _ => state,
    }
}

/// The action that answers `event` in `state`. A link query ends with the
/// link bit of the word read, a link wait with `true`; every other step asks
/// for what the next state waits on.
pub open spec fn next_action(state: PhyState, event: BusEvent) -> PhyAction {
    match (state, event) {
        (PhyState::LinkRead, BusEvent::Value(word)) => PhyAction::LinkStatus(bit(word, 2)),
        (PhyState::WaitPoll, BusEvent::Value(word)) => if bit(word, 2) {
            PhyAction::LinkStatus(true)
        } else {
            PhyAction::DelayMs(LINK_POLL_MS)
        },
        _ => pending(next_state(state, event)),
    }
}

/// Driver for the transceiver. It decides; the caller moves the words.
#[derive(Clone, Copy, Debug)]
pub struct Phy {
    state: PhyState,
}

impl View for Phy {
    type V = PhyState;

    closed spec fn view(&self) -> PhyState {
        self.state
    }
}

impl Phy {
    /// A driver with no procedure running.
    pub fn new() -> (phy: Phy)
        ensures
            phy@ == PhyState::Idle,
    {
        Phy { state: PhyState::Idle }
    }

    /// Begins a soft reset, dropping whatever procedure was running. The
    /// procedure reads the control word, writes it back with the soft-reset
    /// bit set, and then polls once per millisecond until the device has
    /// cleared the bit.
    pub fn reset(&mut self) -> (action: PhyAction)
        ensures
            final(self)@ == PhyState::ResetRead,
            action == (PhyAction::Read { phy: PHY_ADDR, reg: Bmcr::ADDRESS }),
    {
        self.state = PhyState::ResetRead;
        PhyAction::Read { phy: PHY_ADDR, reg: Bmcr::ADDRESS }
    }

    /// Begins the mode setup, dropping whatever procedure was running. The
    /// procedure reads the control word and writes it back with full duplex
    /// and 100 Mb/s forced and auto-negotiation off.
    pub fn setup(&mut self) -> (action: PhyAction)
        ensures
            final(self)@ == PhyState::SetupRead,
            action == (PhyAction::Read { phy: PHY_ADDR, reg: Bmcr::ADDRESS }),
    {
        self.state = PhyState::SetupRead;
        PhyAction::Read { phy: PHY_ADDR, reg: Bmcr::ADDRESS }
    }

    /// Begins a link query, dropping whatever procedure was running. The
    /// procedure is one read of the status word.
    pub fn link_status(&mut self) -> (action: PhyAction)
        ensures
            final(self)@ == PhyState::LinkRead,
            action == (PhyAction::Read { phy: PHY_ADDR, reg: Bmsr::ADDRESS }),
    {
        self.state = PhyState::LinkRead;
        PhyAction::Read { phy: PHY_ADDR, reg: Bmsr::ADDRESS }
    }

    /// Begins waiting for the link, dropping whatever procedure was running.
    /// The procedure polls the status word every hundred milliseconds until
    /// the link bit is set. It ends only when the link comes up.
    pub fn wait_for_link(&mut self) -> (action: PhyAction)
        ensures
            final(self)@ == PhyState::WaitPoll,
            action == (PhyAction::Read { phy: PHY_ADDR, reg: Bmsr::ADDRESS }),
    {
        self.state = PhyState::WaitPoll;
        PhyAction::Read { phy: PHY_ADDR, reg: Bmsr::ADDRESS }
    }

    /// Whether no procedure is running.
    pub fn is_idle(&self) -> (idle: bool)
        ensures
            idle == (self@ == PhyState::Idle),
    {
        self.state == PhyState::Idle
    }

    /// Takes the report of the last action and answers with the next one.
    pub fn advance(&mut self, event: BusEvent) -> (action: PhyAction)
        ensures
            final(self)@ == next_state(old(self)@, event),
            action == next_action(old(self)@, event),
    {
        let (state, action) = match (self.state, event) {
            (PhyState::ResetRead, BusEvent::Value(word)) => {
                let mut control = Bmcr::from(word);
                control.set_soft_reset(true);
                let data = u16::from(control);
                proof {
                    Bmcr::lemma_write_flag(word, 15, true);
                    lemma_control_fields_determine_word(data, reset_request(word));
                }
                (PhyState::ResetWrite(data), PhyAction::Write {
                    phy: PHY_ADDR,
                    reg: Bmcr::ADDRESS,
                    data,
                })
            },
            (PhyState::ResetWrite(_), BusEvent::Written) => (
                PhyState::ResetDelay,
                PhyAction::DelayMs(RESET_POLL_MS),
            ),
            (PhyState::ResetDelay, BusEvent::Elapsed) => (
                PhyState::ResetPoll,
                PhyAction::Read { phy: PHY_ADDR, reg: Bmcr::ADDRESS },
            ),
            (PhyState::ResetPoll, BusEvent::Value(word)) => {
                if Bmcr::from(word).soft_reset() {
                    (PhyState::ResetDelay, PhyAction::DelayMs(RESET_POLL_MS))
                } else {
                    (PhyState::Idle, PhyAction::Done)
                }
            },
            (PhyState::SetupRead, BusEvent::Value(word)) => {
                let mut control = Bmcr::from(word);
                control.set_force_fd(true);
                control.set_an_enable(false);
                control.set_force_100(true);
                let data = u16::from(control);
                proof {
                    lemma_forced_mode_fields(word);
                    lemma_control_fields_determine_word(data, forced_mode(word));
                }
                (PhyState::SetupWrite(data), PhyAction::Write {
                    phy: PHY_ADDR,
                    reg: Bmcr::ADDRESS,
                    data,
                })
            },
            (PhyState::SetupWrite(_), BusEvent::Written) => (PhyState::Idle, PhyAction::Done),
            (PhyState::LinkRead, BusEvent::Value(word)) => (
                PhyState::Idle,
                PhyAction::LinkStatus(Bmsr::from(word).link_status()),
            ),
            (PhyState::WaitPoll, BusEvent::Value(word)) => {
                if Bmsr::from(word).link_status() {
                    (PhyState::Idle, PhyAction::LinkStatus(true))
                } else {
                    (PhyState::WaitDelay, PhyAction::DelayMs(LINK_POLL_MS))
                }
            },
            (PhyState::WaitDelay, BusEvent::Elapsed) => (
                PhyState::WaitPoll,
                PhyAction::Read { phy: PHY_ADDR, reg: Bmsr::ADDRESS },
            ),
            (state, _) => (state, Self::awaited(state)),
        };
        self.state = state;
        action
    }

    /// The action that `state` is waiting on.
    fn awaited(state: PhyState) -> (action: PhyAction)
        ensures
            action == pending(state),
    {
        match state {
            PhyState::Idle => PhyAction::Done,
            PhyState::ResetRead | PhyState::ResetPoll | PhyState::SetupRead => PhyAction::Read {
                phy: PHY_ADDR,
                reg: Bmcr::ADDRESS,
            },
            PhyState::ResetWrite(data) | PhyState::SetupWrite(data) => PhyAction::Write {
                phy: PHY_ADDR,
                reg: Bmcr::ADDRESS,
                data,
            },
            PhyState::ResetDelay => PhyAction::DelayMs(RESET_POLL_MS),
            PhyState::LinkRead | PhyState::WaitPoll => PhyAction::Read {
                phy: PHY_ADDR,
                reg: Bmsr::ADDRESS,
            },
            PhyState::WaitDelay => PhyAction::DelayMs(LINK_POLL_MS),
        }
    }
}

/// The word that starts a reset differs from the word read in the soft-reset
/// flag alone, which is set.
pub proof fn lemma_reset_request_fields(control: u16)
    ensures
        control_fields(reset_request(control)) == (BmcrView {
            soft_reset: true,
            ..control_fields(control)
        }),
{
    Bmcr::lemma_write_flag(control, 15, true);
}

/// The word that forces the mode differs from the word read in three flags
/// alone: full duplex and 100 Mb/s are set, and auto-negotiation is off.
pub proof fn lemma_forced_mode_fields(control: u16)
    ensures
        control_fields(forced_mode(control)) == (BmcrView {
            force_fd: true,
            an_enable: false,
            force_100: true,
            ..control_fields(control)
        }),
{
    let duplex = with_bit(control, 8, true);
    let fixed = with_bit(duplex, 12, false);
    Bmcr::lemma_write_flag(control, 8, true);
    Bmcr::lemma_write_flag(duplex, 12, false);
    Bmcr::lemma_write_flag(fixed, 13, true);
}

/// A link query is one read and no write, and its answer is the link bit of
/// the word read. Two queries that read words with the same link bit, as two
/// reads of an unwritten register do, therefore give the same answer, and
/// each leaves the driver idle.
pub proof fn lemma_link_status_repeatable(first: u16, second: u16)
    requires
        status_fields(first).link_status == status_fields(second).link_status,
    ensures
        pending(PhyState::LinkRead) == (PhyAction::Read { phy: PHY_ADDR, reg: Bmsr::ADDRESS }),
        next_action(PhyState::LinkRead, BusEvent::Value(first)) == PhyAction::LinkStatus(
            status_fields(first).link_status,
        ),
        next_action(PhyState::LinkRead, BusEvent::Value(second)) == next_action(
            PhyState::LinkRead,
            BusEvent::Value(first),
        ),
        next_state(PhyState::LinkRead, BusEvent::Value(first)) == PhyState::Idle,
        next_state(PhyState::LinkRead, BusEvent::Value(second)) == PhyState::Idle,
{
}

/// A reset keeps polling for as long as the device reports the soft-reset
/// flag set, and ends with the first poll that reports it clear.
pub proof fn lemma_reset_ends_when_cleared(control: u16)
    ensures
        control_fields(control).soft_reset ==> next_state(
            PhyState::ResetPoll,
            BusEvent::Value(control),
        ) == PhyState::ResetDelay && next_action(PhyState::ResetPoll, BusEvent::Value(control))
            == PhyAction::DelayMs(RESET_POLL_MS),
        !control_fields(control).soft_reset ==> next_state(
            PhyState::ResetPoll,
            BusEvent::Value(control),
        ) == PhyState::Idle && next_action(PhyState::ResetPoll, BusEvent::Value(control))
            == PhyAction::Done,
{
}

} // verus!
