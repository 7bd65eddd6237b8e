//! The configuration table: which advertised names and addresses belong to
//! which device family, and what a device of that kind is made of.

use crate::device::protocol::ProtocolIdentifier;
use crate::errors::ButtplugDeviceError;
use crate::message::{ActuatorType, ButtplugDeviceMessageType, SensorType};
use vstd::prelude::*;

verus! {

/// Whether `text` fits `pattern`. A pattern that ends in `*` stands for
/// every text that begins with what is before the `*`; any other pattern
/// stands for itself.
pub open spec fn pattern_matches(pattern: Seq<char>, text: Seq<char>) -> bool {
    if pattern.len() > 0 && pattern.last() == '*' {
        pattern.drop_last().is_prefix_of(text)
    } else {
        pattern == text
    }
}

/// Whether the first `n` characters of `a` and of `b` agree.
fn same_start(a: &str, b: &str, n: usize) -> (r: bool)
    requires
        n <= a@.len(),
        n <= b@.len(),
    ensures
        r == (a@.subrange(0, n as int) == b@.subrange(0, n as int)),
{
    let mut i: usize = 0;
    while i < n
        invariant
            i <= n <= a@.len(),
            n <= b@.len(),
            a@.subrange(0, i as int) == b@.subrange(0, i as int),
        decreases n - i,
    {
        if a.get_char(i) != b.get_char(i) {
            assert(a@.subrange(0, n as int)[i as int] != b@.subrange(0, n as int)[i as int]);
            return false;
        }
        assert(a@.subrange(0, i + 1) =~= a@.subrange(0, i as int).push(a@[i as int]));
        assert(b@.subrange(0, i + 1) =~= b@.subrange(0, i as int).push(b@[i as int]));
        i += 1;
    }
    true
}

/// Decides whether two texts are the same, character by character.
pub fn same_text(a: &str, b: &str) -> (r: bool)
    ensures
        r == (a@ == b@),
{
    let len: usize = a.unicode_len();
    if len != b.unicode_len() {
        return false;
    }
    let r = same_start(a, b, len);
    assert(a@.subrange(0, len as int) =~= a@);
    assert(b@.subrange(0, len as int) =~= b@);
    r
}

/// Decides whether `text` fits `pattern`.
pub fn matches_pattern(pattern: &str, text: &str) -> (r: bool)
    ensures
        r == pattern_matches(pattern@, text@),
{
    let pattern_len: usize = pattern.unicode_len();
    if pattern_len > 0 && pattern.get_char(pattern_len - 1) == '*' {
        let stem: usize = pattern_len - 1;
        if stem > text.unicode_len() {
            return false;
        }
        let r = same_start(pattern, text, stem);
        assert(pattern@.drop_last() =~= pattern@.subrange(0, stem as int));
        r
    } else {
        same_text(pattern, text)
    }
}

/// Whether `text` fits one of `patterns`.
pub open spec fn any_pattern_matches(patterns: Seq<String>, text: Seq<char>) -> bool {
    exists|k: int| 0 <= k < patterns.len() && pattern_matches(#[trigger] patterns[k]@, text)
}

/// Decides whether `text` fits one of `patterns`.
pub fn matches_any_pattern(patterns: &Vec<String>, text: &str) -> (r: bool)
    ensures
        r == any_pattern_matches(patterns@, text@),
{
    let mut k: usize = 0;
    while k < patterns.len()
        invariant
            k <= patterns@.len(),
            forall|j: int| 0 <= j < k ==> !pattern_matches(#[trigger] patterns@[j]@, text@),
        decreases patterns@.len() - k,
    {
        if matches_pattern(patterns[k].as_str(), text) {
            return true;
        }
        k += 1;
    }
    false
}

/// What a device is made of: its actuators and sensors, each kind in the
/// order in which commands address them.
#[derive(Debug, PartialEq, Eq)]
pub struct DeviceLayout {
    /// The scalar actuators.
    pub scalar: Vec<ActuatorType>,
    /// The number of rotating actuators.
    pub rotate: u32,
    /// The number of linear actuators.
    pub linear: u32,
    /// The sensors.
    pub sensors: Vec<SensorType>,
}

/// A layout with its lists as sequences.
pub ghost struct DeviceLayoutModel {
    pub scalar: Seq<ActuatorType>,
    pub rotate: u32,
    pub linear: u32,
    pub sensors: Seq<SensorType>,
}

impl View for DeviceLayout {
    type V = DeviceLayoutModel;

    open spec fn view(&self) -> DeviceLayoutModel {
        DeviceLayoutModel {
            scalar: self.scalar@,
            rotate: self.rotate,
            linear: self.linear,
            sensors: self.sensors@,
        }
    }
}

impl DeviceLayoutModel {
    /// Whether a device of this layout takes commands of the given kind.
    /// Raw commands depend on the session alone, stopping is always
    /// possible, and every other kind needs an actuator or a sensor that it
    /// addresses.
    pub open spec fn supports(self, kind: ButtplugDeviceMessageType, allow_raw: bool) -> bool {
        match kind {
            ButtplugDeviceMessageType::ScalarCmd => self.scalar.len() > 0,
            ButtplugDeviceMessageType::VibrateCmd => self.scalar.contains(ActuatorType::Vibrate),
            ButtplugDeviceMessageType::SingleMotorVibrateCmd => self.scalar.contains(
                ActuatorType::Vibrate,
            ),
            ButtplugDeviceMessageType::RotateCmd => self.rotate > 0,
            ButtplugDeviceMessageType::LinearCmd => self.linear > 0,
            ButtplugDeviceMessageType::SensorReadCmd => self.sensors.len() > 0,
            ButtplugDeviceMessageType::SensorSubscribeCmd => self.sensors.len() > 0,
            ButtplugDeviceMessageType::SensorUnsubscribeCmd => self.sensors.len() > 0,
            ButtplugDeviceMessageType::StopDeviceCmd => true,
            ButtplugDeviceMessageType::RawWriteCmd => allow_raw,
            ButtplugDeviceMessageType::RawReadCmd => allow_raw,
            ButtplugDeviceMessageType::RawSubscribeCmd => allow_raw,
            ButtplugDeviceMessageType::RawUnsubscribeCmd => allow_raw,
        }
    }

    /// The test that `supports` makes of a kind.
    pub open spec fn supported(self, allow_raw: bool) -> spec_fn(ButtplugDeviceMessageType) -> bool {
        |kind: ButtplugDeviceMessageType| self.supports(kind, allow_raw)
    }

    /// The kinds of command that a device of this layout takes, in the
    /// order in which they are announced.
    pub open spec fn messages(self, allow_raw: bool) -> Seq<ButtplugDeviceMessageType> {
        ButtplugDeviceMessageType::all_kinds().filter(self.supported(allow_raw))
    }

    /// The announced kinds are the supported kinds, each announced once.
    pub proof fn lemma_messages_are_the_supported(self, allow_raw: bool)
        ensures
            forall|kind: ButtplugDeviceMessageType|
                self.messages(allow_raw).contains(kind) <==> self.supports(kind, allow_raw),
            self.messages(allow_raw).no_duplicates(),
    {
        let all = ButtplugDeviceMessageType::all_kinds();
        ButtplugDeviceMessageType::lemma_all_kinds_complete();
        lemma_filter_keeps(all, self.supported(allow_raw));
    }
}

/// Filtering keeps exactly the elements that pass the test, and makes no
/// duplicates.
proof fn lemma_filter_keeps<A>(s: Seq<A>, test: spec_fn(A) -> bool)
    ensures
        forall|x: A| s.filter(test).contains(x) <==> s.contains(x) && test(x),
        s.no_duplicates() ==> s.filter(test).no_duplicates(),
    decreases s.len(),
{
    reveal(Seq::filter);
    if s.len() > 0 {
        let front = s.drop_last();
        let kept = front.filter(test);
        lemma_filter_keeps(front, test);
        assert forall|x: A| s.contains(x) <==> front.contains(x) || x == s.last() by {
            if s.contains(x) {
                let i = choose|i: int| 0 <= i < s.len() && s[i] == x;
                if i < s.len() - 1 {
                    assert(front[i] == x);
                }
            }
            if front.contains(x) {
                let i = choose|i: int| 0 <= i < front.len() && front[i] == x;
                assert(s[i] == x);
            }
            if x == s.last() {
                assert(s[s.len() - 1] == x);
            }
        }
        if test(s.last()) {
            let out = kept.push(s.last());
            assert forall|x: A| out.contains(x) <==> kept.contains(x) || x == s.last() by {
                if out.contains(x) {
                    let i = choose|i: int| 0 <= i < out.len() && out[i] == x;
                    if i < kept.len() {
                        assert(kept[i] == x);
                    }
                }
                if kept.contains(x) {
                    let i = choose|i: int| 0 <= i < kept.len() && kept[i] == x;
                    assert(out[i] == x);
                }
                if x == s.last() {
                    assert(out[out.len() - 1] == x);
                }
            }
            if s.no_duplicates() {
                assert(front.no_duplicates());
                assert(!front.contains(s.last())) by {
                    if front.contains(s.last()) {
                        let i = choose|i: int| 0 <= i < front.len() && front[i] == s.last();
                        assert(s[i] == s[s.len() - 1]);
                    }
                }
                assert(!kept.contains(s.last()));
                assert forall|i: int, j: int|
                    0 <= i < out.len() && 0 <= j < out.len() && i != j implies out[i] != out[j] by {
                    if i == kept.len() {
                        assert(kept.contains(kept[j]));
                    } else if j == kept.len() {
                        assert(kept.contains(kept[i]));
                    }
                }
            }
        } else {
            if s.no_duplicates() {
                assert(front.no_duplicates());
            }
        }
    }
}

impl DeviceLayout {
    /// Whether one of the scalar actuators vibrates.
    fn has_vibrator(&self) -> (r: bool)
        ensures
            r == self@.scalar.contains(ActuatorType::Vibrate),
    {
        let mut i: usize = 0;
        while i < self.scalar.len()
            invariant
                i <= self.scalar@.len(),
                forall|j: int| 0 <= j < i ==> self.scalar@[j] != ActuatorType::Vibrate,
            decreases self.scalar@.len() - i,
        {
            if self.scalar[i] == ActuatorType::Vibrate {
                return true;
            }
            i += 1;
        }
        false
    }

    /// Decides whether a device of this layout takes commands of the given
    /// kind.
    pub fn supports(&self, kind: ButtplugDeviceMessageType, allow_raw: bool) -> (r: bool)
        ensures
            r == self@.supports(kind, allow_raw),
    {
        match kind {
            ButtplugDeviceMessageType::ScalarCmd => self.scalar.len() > 0,
            ButtplugDeviceMessageType::VibrateCmd => self.has_vibrator(),
            ButtplugDeviceMessageType::SingleMotorVibrateCmd => self.has_vibrator(),
            ButtplugDeviceMessageType::RotateCmd => self.rotate > 0,
            ButtplugDeviceMessageType::LinearCmd => self.linear > 0,
            ButtplugDeviceMessageType::SensorReadCmd => self.sensors.len() > 0,
            ButtplugDeviceMessageType::SensorSubscribeCmd => self.sensors.len() > 0,
            ButtplugDeviceMessageType::SensorUnsubscribeCmd => self.sensors.len() > 0,
            ButtplugDeviceMessageType::StopDeviceCmd => true,
            ButtplugDeviceMessageType::RawWriteCmd => allow_raw,
            ButtplugDeviceMessageType::RawReadCmd => allow_raw,
            ButtplugDeviceMessageType::RawSubscribeCmd => allow_raw,
            ButtplugDeviceMessageType::RawUnsubscribeCmd => allow_raw,
        }
    }

    /// The kinds of command that a device of this layout takes.
    pub fn messages(&self, allow_raw: bool) -> (r: Vec<ButtplugDeviceMessageType>)
        ensures
            r@ == self@.messages(allow_raw),
    {
        let kinds = ButtplugDeviceMessageType::all();
        let ghost test = self@.supported(allow_raw);
        let mut out: Vec<ButtplugDeviceMessageType> = Vec::new();
        let mut i: usize = 0;
        proof {
            reveal(Seq::filter);
            assert(kinds@.take(0).filter(test) =~= Seq::empty());
        }
        while i < kinds.len()
            invariant
                i <= kinds@.len(),
                test == self@.supported(allow_raw),
                out@ == kinds@.take(i as int).filter(test),
            decreases kinds@.len() - i,
        {
            proof {
                reveal(Seq::filter);
                assert(kinds@.take(i + 1).drop_last() =~= kinds@.take(i as int));
            }
            if self.supports(kinds[i], allow_raw) {
                out.push(kinds[i]);
            }
            i += 1;
        }
        assert(kinds@.take(i as int) =~= kinds@);
        out
    }
}

impl Clone for DeviceLayout {
    fn clone(&self) -> (r: Self)
        ensures
            r@ == self@,
    {
        DeviceLayout {
            scalar: self.scalar.clone(),
            rotate: self.rotate,
            linear: self.linear,
            sensors: self.sensors.clone(),
        }
    }
}

/// One entry of the configuration table.
#[derive(Debug, PartialEq, Eq)]
pub struct ProtocolDefinition {
    /// The patterns for the names that devices of this kind advertise.
    pub names: Vec<String>,
    /// The patterns for the transport addresses of devices of this kind.
    pub addresses: Vec<String>,
    /// The family whose handler drives the device.
    pub identifier: ProtocolIdentifier,
    /// The name under which the device is announced.
    pub display_name: String,
    /// What the device is made of.
    pub layout: DeviceLayout,
}

impl ProtocolDefinition {
    /// Whether a device that advertises `name` at `address` is of this
    /// kind: its name or its address fits one of the entry's patterns.
    pub open spec fn matches(&self, name: Seq<char>, address: Seq<char>) -> bool {
        any_pattern_matches(self.names@, name) || any_pattern_matches(self.addresses@, address)
    }

    /// Decides whether a device that advertises `name` at `address` is of
    /// this kind.
    pub fn is_match(&self, name: &str, address: &str) -> (r: bool)
        ensures
            r == self.matches(name@, address@),
    {
        matches_any_pattern(&self.names, name) || matches_any_pattern(&self.addresses, address)
    }
}

/// The first entry of `config`, from position `start` on, that a device
/// with this name and address is a match of.
pub open spec fn first_match_from(
    config: Seq<ProtocolDefinition>,
    name: Seq<char>,
    address: Seq<char>,
    start: int,
) -> Option<int>
    decreases config.len() - start,
{
    if start < 0 || start >= config.len() {
        None
    } else if config[start].matches(name, address) {
        Some(start)
    } else {
        first_match_from(config, name, address, start + 1)
    }
}

/// The entry of `config` that a device with this name and address is bound
/// to: the first that matches.
pub open spec fn first_match(config: Seq<ProtocolDefinition>, name: Seq<char>, address: Seq<char>)
    -> Option<int> {
    first_match_from(config, name, address, 0)
}

/// The first match is a match, and no entry before it is one; without a
/// first match no entry matches.
pub proof fn lemma_first_match(
    config: Seq<ProtocolDefinition>,
    name: Seq<char>,
    address: Seq<char>,
    start: int,
)
    requires
        0 <= start,
    ensures
        match first_match_from(config, name, address, start) {
            Some(i) => start <= i < config.len() && config[i].matches(name, address) && forall|
                j: int,
            |
                start <= j < i ==> !(#[trigger] config[j]).matches(name, address),
            None => forall|j: int|
                start <= j < config.len() ==> !(#[trigger] config[j]).matches(name, address),
        },
    decreases config.len() - start,
{
    if start < config.len() && !config[start].matches(name, address) {
        lemma_first_match(config, name, address, start + 1);
    }
}

/// Selects the entry of the table for a discovered device. A device that
/// no entry matches has no handler.
pub fn find_definition(config: &Vec<ProtocolDefinition>, name: &str, address: &str) -> (r: Result<
    usize,
    ButtplugDeviceError,
>)
    ensures
        match r {
            Ok(i) => i < config@.len() && first_match(config@, name@, address@) == Some(i as int),
            Err(e) => e == ButtplugDeviceError::NoMatchingHandler && first_match(
                config@,
                name@,
                address@,
            ) is None,
        },
{
    let mut i: usize = 0;
    while i < config.len()
        invariant
            i <= config@.len(),
            first_match(config@, name@, address@) == first_match_from(
                config@,
                name@,
                address@,
                i as int,
            ),
        decreases config@.len() - i,
    {
        if config[i].is_match(name, address) {
            return Ok(i);
        }
        i += 1;
    }
    Err(ButtplugDeviceError::NoMatchingHandler)
}

} // verus!
