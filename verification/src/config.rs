//! The tool's configuration and the handler scripts it asks for.

use vstd::prelude::*;
use vstd::string::*;

use crate::acpi::AcpiEventsConfig;
use crate::acpi::EventScript;

verus! {

/// The configuration as the loader hands it over: the backlight device,
/// the display the backend drives, the size of one hotkey step, and the
/// event codes of the two hotkeys.
#[derive(Debug, Clone)]
pub struct Config {
    pub acpi_device: String,
    pub xrandr_display: String,
    pub brightness_increment: i16,
    pub acpi_events: AcpiEventsConfig,
}

impl Config {
    /// The two handler scripts that register this tool for the configured
    /// hotkeys: the down script first, then the up script, each telling
    /// the daemon to run the tool with `--action` and the path of the
    /// configuration file.  The caller writes them into the events
    /// directory in this order and then reloads the daemon.
    pub fn apply_config(&self, config_file: &str) -> (scripts: Vec<EventScript>)
        ensures
            scripts@.len() == 2,
            scripts@[0].event_name@ == "keyboard-backlight-down"@,
            scripts@[0].event_code@ == self.acpi_events.brightness_down@,
            scripts@[0].action_command@ == "acpi-keyboard-backlight"@,
            scripts@[0].action_args@ == "--action down --config-file "@ + config_file@,
            scripts@[1].event_name@ == "keyboard-backlight-up"@,
            scripts@[1].event_code@ == self.acpi_events.brightness_up@,
            scripts@[1].action_command@ == "acpi-keyboard-backlight"@,
            scripts@[1].action_args@ == "--action up --config-file "@ + config_file@,
    {
        let down = EventScript {
            event_name: "keyboard-backlight-down".to_owned(),
            event_code: self.acpi_events.brightness_down.clone(),
            action_command: "acpi-keyboard-backlight".to_owned(),
            action_args: "--action down --config-file ".to_owned().concat(config_file),
        };
        let up = EventScript {
            event_name: "keyboard-backlight-up".to_owned(),
            event_code: self.acpi_events.brightness_up.clone(),
            action_command: "acpi-keyboard-backlight".to_owned(),
            action_args: "--action up --config-file ".to_owned().concat(config_file),
        };
        let mut scripts: Vec<EventScript> = Vec::new();
        scripts.push(down);
        scripts.push(up);
        scripts
    }
}

} // verus!
