use acpi_backlight::acpi::AcpiEventAction;
use acpi_backlight::acpi::ActionError;
use acpi_backlight::acpi::EventScript;

#[test]
fn set_acpi_event() {
    let script = EventScript {
        event_name: "event_name".to_string(),
        event_code: "event_code".to_string(),
        action_command: "script_path".to_string(),
        action_args: "script_arg".to_string(),
    };

    assert_eq!(script.render(), "event=event_code\naction=script_path script_arg\n");
}

#[test]
fn parse_action_lower_case() {
    assert_eq!(AcpiEventAction::from_str("up"), Ok(AcpiEventAction::BrightnessUp));
    assert_eq!(AcpiEventAction::from_str("down"), Ok(AcpiEventAction::BrightnessDown));
}

#[test]
fn parse_action_ignores_case() {
    assert_eq!(AcpiEventAction::from_str("UP"), Ok(AcpiEventAction::BrightnessUp));
    assert_eq!(AcpiEventAction::from_str("Up"), Ok(AcpiEventAction::BrightnessUp));
    assert_eq!(AcpiEventAction::from_str("uP"), Ok(AcpiEventAction::BrightnessUp));
    assert_eq!(AcpiEventAction::from_str("DOWN"), Ok(AcpiEventAction::BrightnessDown));
    assert_eq!(AcpiEventAction::from_str("Down"), Ok(AcpiEventAction::BrightnessDown));
    assert_eq!(AcpiEventAction::from_str("dOwN"), Ok(AcpiEventAction::BrightnessDown));
}

#[test]
fn parse_action_refuses_everything_else() {
    for bad in ["", "u", "upp", "down ", " up", "left", "UPDOWN", "Dow", "üp"] {
        assert_eq!(AcpiEventAction::from_str(bad), Err(ActionError::InvalidAction));
    }
}

#[test]
fn render_keeps_exact_layout() {
    let script = EventScript {
        event_name: "keyboard-backlight-up".to_string(),
        event_code: "video/brightnessup".to_string(),
        action_command: "acpi-keyboard-backlight".to_string(),
        action_args: "--action up --config-file config.toml".to_string(),
    };

    let text = script.render();
    assert_eq!(
        text,
        "event=video/brightnessup\naction=acpi-keyboard-backlight --action up --config-file config.toml\n"
    );
    assert_eq!(text.lines().count(), 2);
    assert!(text.ends_with('\n'));
}
