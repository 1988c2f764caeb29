use flight_vr::shaders::{source, BuildShader};

#[test]
fn build_without_version_puts_definitions_first() {
    let b: BuildShader = source("plain", "void main() {}\n").define("COLOR").define_to("I_POS", "v_pos");
    assert_eq!(b.name, "plain");
    assert_eq!(b.build(), "#define COLOR\n#define I_POS v_pos\n#line 1\nvoid main() {}\n");
}

#[test]
fn build_keeps_version_line_first() {
    let b = source("versioned", "#version 150 core\nvoid main() {}\n").define("NORM");
    assert_eq!(b.build(), "#version 150 core\n#define NORM\n#line 1\n\nvoid main() {}\n");
}

#[test]
fn build_version_without_line_break() {
    let b = source("short", "#version 330").define("TEX");
    assert_eq!(b.build(), "#version 330\n#define TEX\n#line 1\n");
}

#[test]
fn build_with_no_definitions() {
    assert_eq!(source("empty", "").build(), "#line 1\n");
}

#[test]
fn vals_adds_each_definition_in_order() {
    let defs = vec![
        ("LIGHT_COUNT".to_string(), Some("4".to_string())),
        ("TAN".to_string(), None),
    ];
    let b = source("pbr", "x").vals(&defs);
    assert_eq!(b.build(), "#define LIGHT_COUNT 4\n#define TAN\n#line 1\nx");
}
