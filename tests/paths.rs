use tes3conv_core::paths::extension;
use tes3conv_core::{output_path, Direction};

#[test]
fn scenario_windows_path_both_directions() {
    assert_eq!(output_path("C:\\data\\plugin.esm", Direction::ToText), "C:\\data\\plugin.json");
    assert_eq!(output_path("C:\\data\\plugin.esm", Direction::ToBinary), "C:\\data\\plugin.esp");
}

#[test]
fn extension_is_fixed_per_direction() {
    assert_eq!(extension(Direction::ToText), "json");
    assert_eq!(extension(Direction::ToBinary), "esp");
    assert_eq!(output_path("mods/a.json", Direction::ToBinary), "mods/a.esp");
    assert_eq!(output_path("mods/a.esp", Direction::ToBinary), "mods/a.esp");
    assert_eq!(output_path("mods/a.esp", Direction::ToText), "mods/a.json");
}

#[test]
fn only_the_last_extension_is_replaced() {
    assert_eq!(output_path("a.b.esm", Direction::ToText), "a.b.json");
    assert_eq!(output_path("dir.v2/plugin", Direction::ToText), "dir.v2/plugin.json");
    assert_eq!(output_path("dir.v2\\plugin", Direction::ToBinary), "dir.v2\\plugin.esp");
}

#[test]
fn path_without_extension_gets_one() {
    assert_eq!(output_path("plugin", Direction::ToText), "plugin.json");
    assert_eq!(output_path(".hidden", Direction::ToText), ".hidden.json");
    assert_eq!(output_path("dir/.hidden", Direction::ToBinary), "dir/.hidden.esp");
}

#[test]
fn path_with_empty_name_is_kept() {
    assert_eq!(output_path("", Direction::ToText), "");
    assert_eq!(output_path("dir/", Direction::ToText), "dir/");
}
