use kanshi_profile::output::{
    ActiveOutput, InactiveOutput, Output, OutputMode, OutputRect, Profile,
};

fn inactive(name: &str, make: &str, model: &str, serial: &str) -> InactiveOutput {
    InactiveOutput {
        name: String::from(name),
        kind: String::from("output"),
        primary: false,
        make: String::from(make),
        model: String::from(model),
        serial: String::from(serial),
        modes: vec![],
        active: false,
        rect: OutputRect { x: 0, y: 0, width: 1920, height: 1080 },
    }
}

fn active(name: &str, make: &str, model: &str, serial: &str) -> ActiveOutput {
    ActiveOutput {
        id: 0,
        kind: String::from("output"),
        orientation: String::from("none"),
        layout: String::from("output"),
        rect: OutputRect { x: 0, y: 0, width: 1920, height: 1080 },
        name: String::from(name),
        primary: false,
        make: String::from(make),
        model: String::from(model),
        serial: String::from(serial),
        modes: vec![],
        active: true,
        scale: String::from("1"),
        scale_filter: String::from("nearest"),
        transform: String::from("normal"),
        adaptive_sync_status: String::from("disabled"),
        current_mode: OutputMode {
            width: 1920,
            height: 1080,
            refresh: 60000,
            picture_aspect_ratio: None,
        },
        subpixel_hinting: String::from("unknown"),
    }
}

#[test]
fn uses_unstable_name_for_embedded_display() {
    let output = InactiveOutput {
        name: String::from("eDP-1"),
        kind: String::from("output"),
        primary: false,
        make: String::from("Unknown"),
        model: String::from("Unknown"),
        serial: String::from("Unknown"),
        modes: vec![],
        active: false,
        rect: OutputRect { x: 0, y: 0, width: 1920, height: 1080 },
    };

    assert_eq!(output.display_name(), "eDP-1");
}

#[test]
fn uses_stable_name_for_external_display() {
    let output = InactiveOutput {
        name: String::from("DP-1"),
        kind: String::from("output"),
        primary: false,
        make: String::from("Dell"),
        model: String::from("U2415"),
        serial: String::from("ABC123"),
        modes: vec![],
        active: false,
        rect: OutputRect { x: 0, y: 0, width: 1920, height: 1080 },
    };

    assert_eq!(output.display_name(), "Dell U2415 ABC123");
}

#[test]
fn stable_name_is_correctly_formatted() {
    let output = InactiveOutput {
        name: String::from("DP-1"),
        kind: String::from("output"),
        primary: false,
        make: String::from("Dell"),
        model: String::from("U2415"),
        serial: String::from("ABC123"),
        modes: vec![],
        active: false,
        rect: OutputRect { x: 0, y: 0, width: 1920, height: 1080 },
    };

    assert_eq!(output.stable_identifier(), "Dell U2415 ABC123");
}

#[test]
fn adaptive_sync_is_on_only_for_enabled() {
    let mut output = active("eDP-1", "Unknown", "Unknown", "Unknown");
    output.adaptive_sync_status = String::from("enabled");
    assert_eq!(output.adaptive_sync(), (String::from("adaptive_sync"), String::from("on")));

    output.adaptive_sync_status = String::from("disabled");
    assert_eq!(output.adaptive_sync(), (String::from("adaptive_sync"), String::from("off")));

    output.adaptive_sync_status = String::from("");
    assert_eq!(output.adaptive_sync(), (String::from("adaptive_sync"), String::from("off")));

    output.adaptive_sync_status = String::from("Enabled");
    assert_eq!(output.adaptive_sync(), (String::from("adaptive_sync"), String::from("off")));
}

#[test]
fn subpixel_unknown_becomes_none() {
    let mut output = active("eDP-1", "Unknown", "Unknown", "Unknown");
    assert_eq!(output.subpixel_hinting(), (String::from("subpixel"), String::from("none")));

    output.subpixel_hinting = String::from("rgb");
    assert_eq!(output.subpixel_hinting(), (String::from("subpixel"), String::from("rgb")));

    output.subpixel_hinting = String::from("vbgr");
    assert_eq!(output.subpixel_hinting(), (String::from("subpixel"), String::from("vbgr")));
}

#[test]
fn refresh_rate_has_exactly_three_decimal_places() {
    let mut output = active("eDP-1", "Unknown", "Unknown", "Unknown");
    assert_eq!(output.mode(), (String::from("mode"), String::from("1920x1080@60.000Hz")));

    output.current_mode.refresh = 59940;
    assert_eq!(output.mode(), (String::from("mode"), String::from("1920x1080@59.940Hz")));

    output.current_mode.refresh = 144001;
    assert_eq!(output.mode(), (String::from("mode"), String::from("1920x1080@144.001Hz")));
}

#[test]
fn position_uses_signed_coordinates() {
    let mut output = active("eDP-1", "Unknown", "Unknown", "Unknown");
    output.rect.x = -1920;
    output.rect.y = -5;
    assert_eq!(output.position(), (String::from("position"), String::from("-1920,-5")));
}

#[test]
fn renders_one_active_embedded_output() {
    let output = active("eDP-1", "Unknown", "Unknown", "Unknown");
    let profile = Profile::new(String::from("laptop"), vec![Output::Active(output)]);

    let expected = "profile laptop {\n    output \"eDP-1\" enable mode 1920x1080@60.000Hz position 0,0 scale 1 transform normal adaptive_sync off\n\n    exec swaymsg output \"'eDP-1'\" subpixel none\n}";
    assert_eq!(profile.to_text(), expected);
}

#[test]
fn renders_one_inactive_output_without_exec_lines() {
    let output = inactive("DP-2", "Dell", "U2415", "ABC123");
    let profile = Profile::new(String::from("desk"), vec![Output::Inactive(output)]);

    let expected = "profile desk {\n    output \"Dell U2415 ABC123\" disable\n\n}";
    assert_eq!(profile.to_text(), expected);
}

#[test]
fn renders_empty_profile_as_header_blank_line_and_closer() {
    let profile = Profile::new(String::from("bare"), vec![]);

    assert_eq!(profile.to_text(), "profile bare {\n\n}");
}

#[test]
fn exec_lines_come_only_from_actives_in_sequence_order() {
    let first = active("eDP-1", "Unknown", "Unknown", "Unknown");
    let middle = inactive("DP-2", "Dell", "U2415", "ABC123");
    let mut last = active("DP-3", "Acme", "Wide", "XYZ789");
    last.rect.x = 1920;
    last.subpixel_hinting = String::from("rgb");
    last.adaptive_sync_status = String::from("enabled");
    let profile = Profile::new(
        String::from("desk"),
        vec![Output::Active(first), Output::Inactive(middle), Output::Active(last)],
    );

    let expected = "profile desk {\n    output \"eDP-1\" enable mode 1920x1080@60.000Hz position 0,0 scale 1 transform normal adaptive_sync off\n    output \"Dell U2415 ABC123\" disable\n    output \"Acme Wide XYZ789\" enable mode 1920x1080@60.000Hz position 1920,0 scale 1 transform normal adaptive_sync on\n\n    exec swaymsg output \"'eDP-1'\" subpixel none\n    exec swaymsg output \"'Acme Wide XYZ789'\" subpixel rgb\n}";
    assert_eq!(profile.to_text(), expected);
}

#[test]
fn rendering_twice_yields_identical_text() {
    let output = active("eDP-1", "Unknown", "Unknown", "Unknown");
    let profile = Profile::new(String::from("laptop"), vec![Output::Active(output)]);

    assert_eq!(profile.to_text(), profile.to_text());
}

#[test]
fn embedded_detection_needs_the_full_prefix() {
    assert_eq!(inactive("eDP-1", "A", "B", "C").display_name(), "eDP-1");
    assert_eq!(inactive("eD", "A", "B", "C").display_name(), "A B C");
    assert_eq!(inactive("edp-1", "A", "B", "C").display_name(), "A B C");
    assert_eq!(inactive("HDMI-A-1", "A", "B", "C").display_name(), "A B C");
    assert!(inactive("eDP-1", "A", "B", "C").is_embedded());
    assert!(!inactive("DP-1", "A", "B", "C").is_embedded());
}
