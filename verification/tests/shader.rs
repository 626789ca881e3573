use glkit::shader::{compile_failed, failure_message, link_failed, link_failure_message};
use glkit::{Command, CommandBuffer, LocationQuery, Shader, ShaderStage};

fn shader(out: &mut CommandBuffer) -> Shader {
    let shader = Shader::new(out, 40, 41, 42, String::from("void main() {}"), String::from("x"));
    out.take();
    shader
}

/// Stands for the device: answers location queries and counts them.
struct Lookups {
    count: usize,
}

impl Lookups {
    fn answer(&mut self, query: &LocationQuery) -> i32 {
        self.count += 1;
        assert_eq!(query.program, 40);
        query.name.len() as i32
    }
}

#[test]
fn creation_compiles_both_stages_then_links_and_releases_the_stages() {
    let mut out = CommandBuffer::new();
    let _shader = Shader::new(&mut out, 40, 41, 42, String::from("vs"), String::from("fs"));
    assert_eq!(
        out.take(),
        vec![
            Command::ShaderSource { shader: 41, source: String::from("vs") },
            Command::CompileShader { shader: 41 },
            Command::CheckCompileStatus { shader: 41, stage: ShaderStage::Vertex },
            Command::ShaderSource { shader: 42, source: String::from("fs") },
            Command::CompileShader { shader: 42 },
            Command::CheckCompileStatus { shader: 42, stage: ShaderStage::Fragment },
            Command::AttachShader { program: 40, shader: 41 },
            Command::AttachShader { program: 40, shader: 42 },
            Command::LinkProgram { program: 40 },
            Command::CheckLinkStatus { program: 40 },
            Command::DeleteShader { shader: 41 },
            Command::DeleteShader { shader: 42 },
        ]
    );
}

#[test]
fn bind_activates_the_program_and_unbind_activates_none() {
    let mut out = CommandBuffer::new();
    let shader = shader(&mut out);
    shader.bind(&mut out);
    shader.unbind(&mut out);
    assert_eq!(
        out.take(),
        vec![Command::UseProgram { program: 40 }, Command::UseProgram { program: 0 }]
    );
}

#[test]
fn no_location_is_known_at_first() {
    let mut out = CommandBuffer::new();
    let shader = shader(&mut out);
    assert_eq!(shader.get_location("uModel"), None);
    assert_eq!(shader.get_location(""), None);
}

#[test]
fn setter_asks_for_an_unknown_location_and_records_nothing() {
    let mut out = CommandBuffer::new();
    let shader = shader(&mut out);
    let status = shader.set_uniform_1_i(&mut out, "uTextureDiffuse", 0);
    assert_eq!(status, Err(LocationQuery { program: 40, name: String::from("uTextureDiffuse") }));
    assert_eq!(out.len(), 0);
}

#[test]
fn setter_uses_the_stored_location() {
    let mut out = CommandBuffer::new();
    let mut shader = shader(&mut out);
    shader.cache_location("uTextureSpecular", 3);
    assert_eq!(shader.get_location("uTextureSpecular"), Some(3));
    assert_eq!(shader.set_uniform_1_i(&mut out, "uTextureSpecular", 1), Ok(()));
    assert_eq!(out.take(), vec![Command::UniformInt { location: 3, value: 1 }]);
}

#[test]
fn same_name_twice_asks_the_device_once() {
    let mut out = CommandBuffer::new();
    let mut shader = shader(&mut out);
    let mut device = Lookups { count: 0 };
    shader.bind(&mut out);
    for value in [7, 8] {
        if let Err(query) = shader.set_uniform_1_i(&mut out, "uLight", value) {
            let location = device.answer(&query);
            shader.cache_location(&query.name, location);
            assert_eq!(shader.set_uniform_1_i(&mut out, "uLight", value), Ok(()));
        }
    }
    assert_eq!(device.count, 1);
    assert_eq!(
        out.take(),
        vec![
            Command::UseProgram { program: 40 },
            Command::UniformInt { location: 6, value: 7 },
            Command::UniformInt { location: 6, value: 8 },
        ]
    );
}

#[test]
fn each_name_is_asked_for_once_whatever_the_setter() {
    let mut out = CommandBuffer::new();
    let mut shader = shader(&mut out);
    let mut device = Lookups { count: 0 };
    let names = ["uA", "uBee", "uA", "uSea", "uBee", "uA"];
    for name in names {
        if let Err(query) = shader.set_uniform_vec3(&mut out, name, [1, 2, 3]) {
            let location = device.answer(&query);
            shader.cache_location(name, location);
        }
        assert_eq!(shader.set_uniform_mat4(&mut out, name, [0; 16]), Ok(()));
    }
    assert_eq!(device.count, 3);
}

#[test]
fn first_answer_for_a_name_stays() {
    let mut out = CommandBuffer::new();
    let mut shader = shader(&mut out);
    shader.cache_location("uModel", 4);
    shader.cache_location("uModel", 9);
    shader.cache_location("uOther", 9);
    assert_eq!(shader.get_location("uModel"), Some(4));
    assert_eq!(shader.get_location("uOther"), Some(9));
}

#[test]
fn location_of_an_unused_uniform_is_used_as_given() {
    let mut out = CommandBuffer::new();
    let mut shader = shader(&mut out);
    shader.cache_location("uUnused", -1);
    assert_eq!(shader.get_location("uUnused"), Some(-1));
    assert_eq!(shader.set_uniform_1_i(&mut out, "uUnused", 5), Ok(()));
    assert_eq!(out.take(), vec![Command::UniformInt { location: -1, value: 5 }]);
}

#[test]
fn matrix_and_vector_setters_record_their_payload() {
    let mut out = CommandBuffer::new();
    let mut shader = shader(&mut out);
    shader.cache_location("uModel", 2);
    shader.cache_location("uLightColor", 5);
    let mut matrix = [0u32; 16];
    for (i, word) in matrix.iter_mut().enumerate() {
        *word = (i as f32).to_bits();
    }
    let white = [1.0f32.to_bits(); 3];
    assert_eq!(shader.set_uniform_mat4(&mut out, "uModel", matrix), Ok(()));
    assert_eq!(shader.set_uniform_vec3(&mut out, "uLightColor", white), Ok(()));
    assert_eq!(
        out.take(),
        vec![
            Command::UniformMat4 { location: 2, matrix },
            Command::UniformVec3 { location: 5, vector: [0x3f80_0000; 3] },
        ]
    );
}

#[test]
fn matrix_and_vector_setters_ask_for_unknown_locations() {
    let mut out = CommandBuffer::new();
    let shader = shader(&mut out);
    assert_eq!(
        shader.set_uniform_mat4(&mut out, "uModel", [0; 16]),
        Err(LocationQuery { program: 40, name: String::from("uModel") })
    );
    assert_eq!(
        shader.set_uniform_vec3(&mut out, "uLightPosition", [0; 3]),
        Err(LocationQuery { program: 40, name: String::from("uLightPosition") })
    );
    assert_eq!(out.len(), 0);
}

#[test]
fn shader_destroy_releases_its_program_once() {
    let mut out = CommandBuffer::new();
    let shader = shader(&mut out);
    shader.destroy(&mut out);
    assert_eq!(out.take(), vec![Command::DeleteProgram { program: 40 }]);
}

#[test]
fn only_status_zero_means_failure() {
    assert!(compile_failed(0));
    assert!(!compile_failed(1));
    assert!(!compile_failed(-1));
    assert!(!compile_failed(i32::MAX));
}

#[test]
fn only_link_status_zero_means_failure() {
    assert!(link_failed(0));
    assert!(!link_failed(1));
    assert!(!link_failed(-1));
    assert!(!link_failed(i32::MIN));
}

#[test]
fn link_failure_message_quotes_the_device() {
    assert_eq!(
        link_failure_message("error: vertex shader lacks `main'"),
        "Failed to link program: error: vertex shader lacks `main'"
    );
    assert_eq!(link_failure_message(""), "Failed to link program: ");
}

#[test]
fn link_is_checked_right_after_linking_and_before_the_stages_go() {
    let mut out = CommandBuffer::new();
    let _shader = Shader::new(&mut out, 7, 8, 9, String::new(), String::new());
    let recorded = out.take();
    let link = recorded.iter().position(|c| *c == Command::LinkProgram { program: 7 }).unwrap();
    assert_eq!(recorded[link + 1], Command::CheckLinkStatus { program: 7 });
    assert_eq!(recorded[link + 2], Command::DeleteShader { shader: 8 });
    let checks = recorded.iter().filter(|c| matches!(c, Command::CheckLinkStatus { .. })).count();
    assert_eq!(checks, 1);
}

#[test]
fn stage_names() {
    assert_eq!(ShaderStage::Vertex.name(), "vertex");
    assert_eq!(ShaderStage::Fragment.name(), "fragment");
}

#[test]
fn failure_message_names_the_stage_and_quotes_the_device() {
    assert_eq!(
        failure_message(ShaderStage::Vertex, "0:3(1): error: syntax error"),
        "Failed to compile vertex shader: 0:3(1): error: syntax error"
    );
    assert_eq!(
        failure_message(ShaderStage::Fragment, ""),
        "Failed to compile fragment shader: "
    );
}
