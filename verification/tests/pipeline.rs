use manifold::pipeline::{
    basic_bind_group_layouts, deduce_pipeline, hyper_bind_group_layouts, PipelineStore, ShaderType,
};

const LAYOUTS: [&str; 5] = ["camera", "texture", "object", "hyper", "slice"];

#[test]
fn basic_pipelines_take_first_three_layouts() {
    assert_eq!(basic_bind_group_layouts(&LAYOUTS), vec!["camera", "texture", "object"]);
}

#[test]
fn hyper_pipeline_skips_texture_layout() {
    assert_eq!(hyper_bind_group_layouts(&LAYOUTS), vec!["camera", "object", "hyper", "slice"]);
}

#[test]
fn hyper_pipeline_with_two_layouts() {
    assert_eq!(hyper_bind_group_layouts(&["camera", "texture"]), vec!["camera"]);
}

#[test]
fn pipeline_follows_shader() {
    let store = PipelineStore { grid: 1u8, basic: 2u8, hyper: 3u8 };
    assert_eq!(*deduce_pipeline(ShaderType::Grid, &store), 1);
    assert_eq!(*deduce_pipeline(ShaderType::Basic, &store), 2);
    assert_eq!(*deduce_pipeline(ShaderType::Hyper, &store), 3);
}
