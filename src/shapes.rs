//! The shape of each command's transaction: how many parameter bytes it
//! sends, how many response bytes it reads, and whether their checksums are
//! checked, after the sensor's data sheet.
use vstd::prelude::*;

use crate::commands::{word_frame, CommandCode};
use crate::driver::CommandBuilder;
use crate::params::{payload_of, ParamBytes};

verus! {

/// Starts the air-quality algorithm: no parameters, no response.
pub fn init_air_quality_command() -> (r: CommandBuilder<0, 0, false>)
    ensures
        r.code == CommandCode::InitAirQuality,
        r.params is None,
{
    CommandBuilder::<0, 0, true>::new(CommandCode::InitAirQuality).ignore_response_crc()
}

/// Reads the serial number: nine checked response bytes.
pub fn get_serial_id_command() -> (r: CommandBuilder<0, 9, true>)
    ensures
        r.code == CommandCode::GetSerialId,
        r.params is None,
{
    CommandBuilder::new(CommandCode::GetSerialId)
}

/// Measures CO2-equivalent and total VOC: two checked words.
pub fn measure_air_quality_command() -> (r: CommandBuilder<0, 6, true>)
    ensures
        r.code == CommandCode::MeasureAirQuality,
        r.params is None,
{
    CommandBuilder::new(CommandCode::MeasureAirQuality)
}

/// Reads the baseline: six checked response bytes.
pub fn get_baseline_command() -> (r: CommandBuilder<0, 6, true>)
    ensures
        r.code == CommandCode::GetBaseline,
        r.params is None,
{
    CommandBuilder::new(CommandCode::GetBaseline)
}

/// Writes the baseline: two words of parameters, no response.
pub fn set_baseline_command(baseline: (u16, u16)) -> (r: CommandBuilder<6, 0, false>)
    ensures
        r.code == CommandCode::SetBaseline,
        r.params == Some(payload_of::<6>(word_frame(baseline.0) + word_frame(baseline.1))),
{
    CommandBuilder::<6, 0, true>::new(CommandCode::SetBaseline).ignore_response_crc().params(
        ParamBytes::from(baseline),
    )
}

/// Sets the absolute humidity: one word of parameters, no response.
pub fn set_humidity_command(params: ParamBytes<3>) -> (r: CommandBuilder<3, 0, false>)
    ensures
        r.code == CommandCode::SetHumidity,
        r.params == Some(params),
{
    CommandBuilder::<3, 0, true>::new(CommandCode::SetHumidity).ignore_response_crc().params(
        params,
    )
}

/// Runs the on-chip self test: three checked response bytes.
pub fn measure_test_command() -> (r: CommandBuilder<0, 3, true>)
    ensures
        r.code == CommandCode::MeasureTest,
        r.params is None,
{
    CommandBuilder::new(CommandCode::MeasureTest)
}

/// Reads the feature set version: three checked response bytes.
pub fn get_feature_set_ver_command() -> (r: CommandBuilder<0, 3, true>)
    ensures
        r.code == CommandCode::GetFeatureSetVer,
        r.params is None,
{
    CommandBuilder::new(CommandCode::GetFeatureSetVer)
}

/// Reads the raw signals: six checked response bytes.
pub fn measure_raw_signals_command() -> (r: CommandBuilder<0, 6, true>)
    ensures
        r.code == CommandCode::MeasureRawSignals,
        r.params is None,
{
    CommandBuilder::new(CommandCode::MeasureRawSignals)
}

} // verus!
