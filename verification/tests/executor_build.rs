use buttre_engine::pipeline::presets::{telex_config, vni_config};
use buttre_engine::pipeline::PipelineExecutor;

#[test]
fn executor_telex_aa_gives_circumflex() {
    let mut ex = PipelineExecutor::new(telex_config());
    ex.process('a');
    ex.process('a');
    assert_eq!(ex.syllable(), "â");
}

#[test]
fn executor_vni_a6_gives_circumflex() {
    let mut ex = PipelineExecutor::new(vni_config());
    ex.process('a');
    ex.process('6');
    assert_eq!(ex.syllable(), "â");
}
