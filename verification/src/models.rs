//! The values the controller passes around: operation results, the saved
//! configuration, the reported state of the climate device, and temperatures.
use vstd::prelude::*;

verus! {

/// The result of one operation as the user interface receives it: whether it
/// succeeded, a message for the user, and the data it produced.
#[derive(Clone, Debug)]
pub struct ServiceResult<T> {
    pub success: bool,
    pub message: String,
    pub data: Option<T>,
}

/// Mathematical model of a [`ServiceResult`].
pub struct ServiceResultView<V> {
    pub success: bool,
    pub message: Seq<char>,
    pub data: Option<V>,
}

impl<T: View> View for ServiceResult<T> {
    type V = ServiceResultView<T::V>;

    open spec fn view(&self) -> ServiceResultView<T::V> {
        ServiceResultView { success: self.success, message: self.message@, data: option_view(self.data) }
    }
}

/// The model of an optional value.
pub open spec fn option_view<T: View>(o: Option<T>) -> Option<T::V> {
    match o {
        Some(x) => Some(x@),
        None => None,
    }
}

/// A successful result with `message` and `data`.
pub open spec fn succeeded<V>(message: Seq<char>, data: V) -> ServiceResultView<V> {
    ServiceResultView { success: true, message, data: Some(data) }
}

/// A failed result with `message` and no data.
pub open spec fn failed<V>(message: Seq<char>) -> ServiceResultView<V> {
    ServiceResultView { success: false, message, data: None }
}

impl<T> ServiceResult<T> {
    /// A successful result carrying `data`.
    pub fn ok(message: &str, data: T) -> (r: Self)
        ensures
            r.success,
            r.message@ == message@,
            r.data == Some(data),
    {
        ServiceResult { success: true, message: String::from_str(message), data: Some(data) }
    }

    /// A failed result without data.
    pub fn fail(message: &str) -> (r: Self)
        ensures
            !r.success,
            r.message@ == message@,
            r.data.is_none(),
    {
        ServiceResult { success: false, message: String::from_str(message), data: None }
    }
}

/// A temperature in degrees, held as the bit pattern of the IEEE 754
/// double-precision number that the user interface and Home Assistant use.
#[derive(Clone, Copy, Debug)]
pub struct Temperature {
    bits: u64,
}

impl View for Temperature {
    type V = u64;

    closed spec fn view(&self) -> u64 {
        self.bits
    }
}

/// The bits of the exponent field of a double.
pub open spec fn exponent_field(bits: u64) -> u64 {
    bits & 0x7FF0_0000_0000_0000
}

/// The double with these bits is NaN: all exponent bits set, fraction non-zero.
pub open spec fn is_nan(bits: u64) -> bool {
    exponent_field(bits) == 0x7FF0_0000_0000_0000 && (bits & 0x000F_FFFF_FFFF_FFFF) != 0
}

/// For a double that is not NaN, an integer that orders doubles as IEEE 754
/// does: the magnitude bits, negated when the sign bit is set (so that both
/// zeros have the key 0).
pub open spec fn order_key(bits: u64) -> int {
    let magnitude = bits & 0x7FFF_FFFF_FFFF_FFFF;
    if (bits >> 63u64) == 1 {
        -(magnitude as int)
    } else {
        magnitude as int
    }
}

/// `a < b` on doubles: false when either is NaN.
pub open spec fn double_lt(a: u64, b: u64) -> bool {
    !is_nan(a) && !is_nan(b) && order_key(a) < order_key(b)
}

/// `a <= b` on doubles: false when either is NaN.
pub open spec fn double_le(a: u64, b: u64) -> bool {
    !is_nan(a) && !is_nan(b) && order_key(a) <= order_key(b)
}

impl Temperature {
    /// The temperature whose double has the bit pattern `bits`.
    pub fn from_bits(bits: u64) -> (t: Temperature)
        ensures
            t@ == bits,
    {
        Temperature { bits }
    }

    /// The bit pattern of the double.
    pub fn to_bits(&self) -> (bits: u64)
        ensures
            bits == self@,
    {
        self.bits
    }

    /// A copy of this temperature.
    pub fn copied(&self) -> (t: Temperature)
        ensures
            t@ == self@,
    {
        Temperature { bits: self.bits }
    }

    /// Positive zero.
    pub fn zero() -> (t: Temperature)
        ensures
            t@ == 0,
    {
        Temperature { bits: 0 }
    }

    /// `self < other` as doubles compare.
    pub fn less_than(&self, other: &Temperature) -> (r: bool)
        ensures
            r == double_lt(self@, other@),
    {
        let a = self.bits;
        let b = other.bits;
        if is_nan_bits(a) || is_nan_bits(b) {
            return false;
        }
        let ma = a & 0x7FFF_FFFF_FFFF_FFFFu64;
        let mb = b & 0x7FFF_FFFF_FFFF_FFFFu64;
        let sa = a >> 63u64;
        let sb = b >> 63u64;
        assert(sa == 0 || sa == 1) by (bit_vector)
            requires
                sa == a >> 63u64,
        ;
        assert(sb == 0 || sb == 1) by (bit_vector)
            requires
                sb == b >> 63u64,
        ;
        if sa == 0 && sb == 0 {
            ma < mb
        } else if sa == 1 && sb == 1 {
            mb < ma
        } else if sa == 1 {
            !(ma == 0 && mb == 0)
        } else {
            false
        }
    }

    /// `self <= other` as doubles compare.
    pub fn at_most(&self, other: &Temperature) -> (r: bool)
        ensures
            r == double_le(self@, other@),
    {
        let a = self.bits;
        let b = other.bits;
        if is_nan_bits(a) || is_nan_bits(b) {
            return false;
        }
        !other.less_than(self)
    }
}

fn is_nan_bits(bits: u64) -> (r: bool)
    ensures
        r == is_nan(bits),
{
    (bits & 0x7FF0_0000_0000_0000u64) == 0x7FF0_0000_0000_0000u64 && (bits
        & 0x000F_FFFF_FFFF_FFFFu64) != 0
}

/// The sign bit and magnitude of a double, read from its bit pattern.
proof fn lemma_sign_and_magnitude(bits: u64)
    ensures
        bits < 0x8000_0000_0000_0000u64 ==> (bits >> 63u64) == 0 && (bits & 0x7FFF_FFFF_FFFF_FFFFu64)
            == bits,
        bits >= 0x8000_0000_0000_0000u64 ==> (bits >> 63u64) == 1 && (bits
            & 0x7FFF_FFFF_FFFF_FFFFu64) == bits - 0x8000_0000_0000_0000u64,
{
    if bits < 0x8000_0000_0000_0000u64 {
        assert((bits >> 63u64) == 0 && (bits & 0x7FFF_FFFF_FFFF_FFFFu64) == bits) by (bit_vector)
            requires
                bits < 0x8000_0000_0000_0000u64,
        ;
    } else {
        assert((bits >> 63u64) == 1 && (bits & 0x7FFF_FFFF_FFFF_FFFFu64) == bits
            - 0x8000_0000_0000_0000u64) by (bit_vector)
            requires
                bits >= 0x8000_0000_0000_0000u64,
        ;
    }
}

/// Temperatures compare as IEEE 754 doubles do: NaN is unordered; among
/// doubles with the sign bit clear a larger bit pattern is a larger number;
/// among doubles with the sign bit set a larger bit pattern is a smaller
/// number; every negative double but negative zero lies below every double
/// with the sign bit clear; and the two zeros are equal.
pub proof fn lemma_double_order(a: u64, b: u64)
    ensures
        is_nan(a) || is_nan(b) ==> !double_lt(a, b) && !double_le(a, b),
        !is_nan(a) && !is_nan(b) && a < 0x8000_0000_0000_0000u64 && b < 0x8000_0000_0000_0000u64
            ==> (double_lt(a, b) <==> a < b) && (double_le(a, b) <==> a <= b),
        !is_nan(a) && !is_nan(b) && a >= 0x8000_0000_0000_0000u64 && b >= 0x8000_0000_0000_0000u64
            ==> (double_lt(a, b) <==> b < a) && (double_le(a, b) <==> b <= a),
        !is_nan(a) && !is_nan(b) && a > 0x8000_0000_0000_0000u64 && b < 0x8000_0000_0000_0000u64
            ==> double_lt(a, b) && !double_le(b, a),
        !is_nan(a) && !is_nan(b) ==> (double_le(a, b) <==> !double_lt(b, a)),
        double_le(0, 0x8000_0000_0000_0000u64) && double_le(0x8000_0000_0000_0000u64, 0),
        !double_lt(0, 0x8000_0000_0000_0000u64) && !double_lt(0x8000_0000_0000_0000u64, 0),
{
    lemma_sign_and_magnitude(a);
    lemma_sign_and_magnitude(b);
    lemma_sign_and_magnitude(0);
    lemma_sign_and_magnitude(0x8000_0000_0000_0000u64);
    assert(!is_nan(0) && !is_nan(0x8000_0000_0000_0000u64)) by (bit_vector);
}

/// The settings the controller keeps in its configuration file.
#[derive(Clone, Debug)]
pub struct AppConfig {
    pub base_url: String,
    pub climate_entity_id: String,
    pub launch_on_system_startup: bool,
    pub auto_power_on_on_startup: bool,
    pub startup_delay_seconds: u64,
    pub retry_count: u32,
    pub default_temperature: Temperature,
    pub min_temperature: Temperature,
    pub max_temperature: Temperature,
    pub temperature_step: Temperature,
}

/// Mathematical model of an [`AppConfig`].
pub struct AppConfigView {
    pub base_url: Seq<char>,
    pub climate_entity_id: Seq<char>,
    pub launch_on_system_startup: bool,
    pub auto_power_on_on_startup: bool,
    pub startup_delay_seconds: u64,
    pub retry_count: u32,
    pub default_temperature: u64,
    pub min_temperature: u64,
    pub max_temperature: u64,
    pub temperature_step: u64,
}

impl View for AppConfig {
    type V = AppConfigView;

    open spec fn view(&self) -> AppConfigView {
        AppConfigView {
            base_url: self.base_url@,
            climate_entity_id: self.climate_entity_id@,
            launch_on_system_startup: self.launch_on_system_startup,
            auto_power_on_on_startup: self.auto_power_on_on_startup,
            startup_delay_seconds: self.startup_delay_seconds,
            retry_count: self.retry_count,
            default_temperature: self.default_temperature@,
            min_temperature: self.min_temperature@,
            max_temperature: self.max_temperature@,
            temperature_step: self.temperature_step@,
        }
    }
}

/// The bits of 26.0, the default target temperature.
pub const DEFAULT_TEMPERATURE_BITS: u64 = 0x403A_0000_0000_0000u64;

/// The bits of 16.0, the default lower bound.
pub const DEFAULT_MIN_TEMPERATURE_BITS: u64 = 0x4030_0000_0000_0000u64;

/// The bits of 30.0, the default upper bound.
pub const DEFAULT_MAX_TEMPERATURE_BITS: u64 = 0x403E_0000_0000_0000u64;

/// The bits of 1.0, the default step.
pub const DEFAULT_TEMPERATURE_STEP_BITS: u64 = 0x3FF0_0000_0000_0000u64;

/// Seconds to wait after a system-start launch before the first attempt to
/// turn the device on, unless the configuration says otherwise.
pub const DEFAULT_STARTUP_DELAY_SECONDS: u64 = 8;

/// Attempts to turn the device on after a system-start launch, unless the
/// configuration says otherwise.
pub const DEFAULT_RETRY_COUNT: u32 = 3;

/// The configuration used before the user has saved one.
pub open spec fn default_config() -> AppConfigView {
    AppConfigView {
        base_url: Seq::empty(),
        climate_entity_id: "climate.living_room_ac"@,
        launch_on_system_startup: true,
        auto_power_on_on_startup: true,
        startup_delay_seconds: DEFAULT_STARTUP_DELAY_SECONDS,
        retry_count: DEFAULT_RETRY_COUNT,
        default_temperature: DEFAULT_TEMPERATURE_BITS,
        min_temperature: DEFAULT_MIN_TEMPERATURE_BITS,
        max_temperature: DEFAULT_MAX_TEMPERATURE_BITS,
        temperature_step: DEFAULT_TEMPERATURE_STEP_BITS,
    }
}

impl Default for AppConfig {
    fn default() -> (config: AppConfig)
        ensures
            config@ == default_config(),
    {
        AppConfig {
            base_url: String::new(),
            climate_entity_id: String::from_str("climate.living_room_ac"),
            launch_on_system_startup: true,
            auto_power_on_on_startup: true,
            startup_delay_seconds: DEFAULT_STARTUP_DELAY_SECONDS,
            retry_count: DEFAULT_RETRY_COUNT,
            default_temperature: Temperature::from_bits(DEFAULT_TEMPERATURE_BITS),
            min_temperature: Temperature::from_bits(DEFAULT_MIN_TEMPERATURE_BITS),
            max_temperature: Temperature::from_bits(DEFAULT_MAX_TEMPERATURE_BITS),
            temperature_step: Temperature::from_bits(DEFAULT_TEMPERATURE_STEP_BITS),
        }
    }
}

impl AppConfig {
    /// A field-by-field copy.
    pub fn copied(&self) -> (config: AppConfig)
        ensures
            config@ == self@,
    {
        AppConfig {
            base_url: self.base_url.clone(),
            climate_entity_id: self.climate_entity_id.clone(),
            launch_on_system_startup: self.launch_on_system_startup,
            auto_power_on_on_startup: self.auto_power_on_on_startup,
            startup_delay_seconds: self.startup_delay_seconds,
            retry_count: self.retry_count,
            default_temperature: self.default_temperature.copied(),
            min_temperature: self.min_temperature.copied(),
            max_temperature: self.max_temperature.copied(),
            temperature_step: self.temperature_step.copied(),
        }
    }
}

/// The state of the climate device as Home Assistant reports it.
#[derive(Clone, Debug)]
pub struct ClimateState {
    pub entity_id: String,
    pub state: String,
    pub hvac_mode: String,
    pub hvac_action: String,
    pub current_temperature: Option<Temperature>,
    pub target_temperature: Option<Temperature>,
    pub min_temperature: Option<Temperature>,
    pub max_temperature: Option<Temperature>,
    pub temperature_step: Option<Temperature>,
    pub is_available: bool,
    pub is_on: bool,
}

/// Mathematical model of a [`ClimateState`].
pub struct ClimateStateView {
    pub entity_id: Seq<char>,
    pub state: Seq<char>,
    pub hvac_mode: Seq<char>,
    pub hvac_action: Seq<char>,
    pub current_temperature: Option<u64>,
    pub target_temperature: Option<u64>,
    pub min_temperature: Option<u64>,
    pub max_temperature: Option<u64>,
    pub temperature_step: Option<u64>,
    pub is_available: bool,
    pub is_on: bool,
}

impl View for ClimateState {
    type V = ClimateStateView;

    open spec fn view(&self) -> ClimateStateView {
        ClimateStateView {
            entity_id: self.entity_id@,
            state: self.state@,
            hvac_mode: self.hvac_mode@,
            hvac_action: self.hvac_action@,
            current_temperature: option_view(self.current_temperature),
            target_temperature: option_view(self.target_temperature),
            min_temperature: option_view(self.min_temperature),
            max_temperature: option_view(self.max_temperature),
            temperature_step: option_view(self.temperature_step),
            is_available: self.is_available,
            is_on: self.is_on,
        }
    }
}

} // verus!
