use vstd::prelude::*;

use vstd::slice::slice_subrange;

verus! {

/// The report ID for the input controller report.
pub const HID_JOYSTICK_REPORT_ID: u8 = 1;

/// The report ID for the output lighting report.
pub const HID_LIGHTING_REPORT_ID: u8 = 2;

/// The size (in bytes) of the gamepad report, excluding the report ID.
pub const HID_JOYSTICK_DATA_SIZE: usize = 3;

/// The size (in bytes) of the lighting report, excluding the report ID.
pub const HID_LIGHTING_DATA_SIZE: usize = 7;

/// Input report for a joystick: seven buttons in one byte and the two
/// encoders as axis bytes.
#[derive(Clone, Copy, Debug, PartialEq, Eq, Structural)]
pub struct JoystickReport {
    /// The button presses, reported in a single byte.
    pub buttons: u8,
    /// Reports an encoder as the joystick's X-axis.
    pub x: u8,
    /// Reports the other encoder as the joystick's Y-axis.
    pub y: u8,
}

impl Default for JoystickReport {
    /// A report with no buttons pressed and both axes at zero.
    fn default() -> (report: JoystickReport)
        ensures
            report == (JoystickReport { buttons: 0, x: 0, y: 0 }),
    {
        JoystickReport { buttons: 0, x: 0, y: 0 }
    }
}

impl JoystickReport {
    /// Converts the report into raw bytes. An extra byte is added at the
    /// start: the report ID.
    pub fn to_bytes(&self) -> (bytes: [u8; 4])
        ensures
            bytes@ == seq![HID_JOYSTICK_REPORT_ID, self.buttons, self.x, self.y],
    {
        let bytes = [HID_JOYSTICK_REPORT_ID, self.buttons, self.x, self.y];
        proof {
            assert(bytes@ =~= seq![HID_JOYSTICK_REPORT_ID, self.buttons, self.x, self.y]);
        }
        bytes
    }
}

/// Inbound lighting command: one intensity byte per button LED, as delivered
/// by the host. A nonzero byte asks for the LED to be lit.
#[derive(Clone, Copy, Debug, PartialEq, Eq)]
pub struct LightingReport {
    /// Represents lighting data for the buttons.
    pub buttons: [u8; 7],
}

impl Default for LightingReport {
    /// A command with every LED dark.
    fn default() -> (report: LightingReport)
        ensures
            report.buttons@ =~= seq![0u8, 0u8, 0u8, 0u8, 0u8, 0u8, 0u8],
    {
        let report = LightingReport { buttons: [0u8, 0u8, 0u8, 0u8, 0u8, 0u8, 0u8] };
        proof {
            assert(report.buttons@ =~= seq![0u8, 0u8, 0u8, 0u8, 0u8, 0u8, 0u8]);
        }
        report
    }
}

impl LightingReport {
    /// Generates a report from raw data: exactly the lighting bytes, without
    /// the report ID.
    pub fn from_bytes(buffer: &[u8]) -> (report: LightingReport)
        requires
            buffer@.len() == HID_LIGHTING_DATA_SIZE,
        ensures
            report.buttons@ == buffer@,
    {
        let mut buttons = [0u8, 0u8, 0u8, 0u8, 0u8, 0u8, 0u8];
        let mut i: usize = 0;
        while i < 7
            invariant
                i <= 7,
                buffer@.len() == 7,
                buttons@.len() == 7,
                forall|j: int| 0 <= j < i ==> buttons@[j] == buffer@[j],
            decreases 7 - i,
        {
            buttons[i] = buffer[i];
            i = i + 1;
        }
        proof {
            assert(buttons@ =~= buffer@);
        }
        LightingReport { buttons }
    }

    /// Validates one raw lighting transfer and extracts the command it
    /// carries. A transfer is accepted exactly when it is long enough to
    /// hold the report ID plus one byte per LED and its first byte is the
    /// lighting report ID; anything malformed or undersized yields nothing,
    /// so the caller drops it silently.
    pub fn parse(data: &[u8]) -> (parsed: Option<LightingReport>)
        ensures
            match parsed {
                Some(report) => {
                    &&& data@.len() >= 8
                    &&& data@[0] == HID_LIGHTING_REPORT_ID
                    &&& report.buttons@ == data@.subrange(1, 8)
                },
                None => data@.len() < 8 || data@[0] != HID_LIGHTING_REPORT_ID,
            },
    {
        if data.len() >= 8 && data[0] == HID_LIGHTING_REPORT_ID {
            let payload = slice_subrange(data, 1, 8);
            Some(LightingReport::from_bytes(payload))
        } else {
            None
        }
    }
}

} // verus!
