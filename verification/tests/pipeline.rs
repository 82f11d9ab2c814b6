//! The pipeline builder: determinism and the resume-directive precedence.

use change_feed::change_stream::{ChangeStreamOptions, ChangeStreamOptionsFullDocument};
use change_feed::document::{Bson, Document, Timestamp};
use change_feed::pipelines::PipelineBuilder;

fn token(name: &str) -> Document {
    let mut d = Document::new();
    d.insert("_data".to_string(), Bson::String(name.to_string()));
    d
}

fn stage_options(built: &[Document]) -> &Document {
    match built[0].get(&"$changeFeed".to_string()) {
        Some(Bson::Document(opts)) => opts,
        other => panic!("no feed stage: {:?}", other),
    }
}

fn get<'a>(d: &'a Document, k: &str) -> Option<&'a Bson> {
    d.get(&k.to_string())
}

#[test]
fn build_is_deterministic() {
    let pipeline = vec![token("stage1")];
    let mut options = ChangeStreamOptions::new();
    options.start_after = Some(token("sa"));
    options.start_at_operation_time = Some(Timestamp { t: 7, i: 1 });
    let pbrt = token("pb");
    let drt = token("dr");
    let ts = Timestamp { t: 9, i: 2 };
    let first = PipelineBuilder::new(&pipeline, &options, 0)
        .post_batch_resume_token(Some(&pbrt))
        .document_resume_token(Some(&drt))
        .last_optime(Some(&ts))
        .build();
    let second = PipelineBuilder::new(&pipeline, &options, 0)
        .post_batch_resume_token(Some(&pbrt))
        .document_resume_token(Some(&drt))
        .last_optime(Some(&ts))
        .build();
    assert_eq!(first, second);
}

#[test]
fn precedence_post_batch_token_wins_on_empty_buffer() {
    let pipeline = vec![];
    let mut options = ChangeStreamOptions::new();
    options.start_after = Some(token("sa"));
    options.start_at_operation_time = Some(Timestamp { t: 7, i: 1 });
    let pbrt = token("pb");
    let drt = token("dr");
    let built = PipelineBuilder::new(&pipeline, &options, 0)
        .post_batch_resume_token(Some(&pbrt))
        .document_resume_token(Some(&drt))
        .build();
    let opts = stage_options(&built);
    assert_eq!(get(opts, "resumeAfter"), Some(&Bson::Document(token("pb"))));
    assert_eq!(get(opts, "startAfter"), None);
    assert_eq!(get(opts, "startAtOperationTime"), None);
}

#[test]
fn precedence_post_batch_token_loses_on_full_buffer() {
    let pipeline = vec![];
    let options = ChangeStreamOptions::new();
    let pbrt = token("pb");
    let drt = token("dr");
    let built = PipelineBuilder::new(&pipeline, &options, 3)
        .post_batch_resume_token(Some(&pbrt))
        .document_resume_token(Some(&drt))
        .build();
    let opts = stage_options(&built);
    assert_eq!(get(opts, "resumeAfter"), Some(&Bson::Document(token("dr"))));
}

#[test]
fn precedence_document_token() {
    let pipeline = vec![];
    let mut options = ChangeStreamOptions::new();
    options.start_after = Some(token("sa"));
    options.start_at_operation_time = Some(Timestamp { t: 7, i: 1 });
    let drt = token("dr");
    let built = PipelineBuilder::new(&pipeline, &options, 0)
        .document_resume_token(Some(&drt))
        .build();
    let opts = stage_options(&built);
    assert_eq!(get(opts, "resumeAfter"), Some(&Bson::Document(token("dr"))));
    assert_eq!(get(opts, "startAfter"), None);
    assert_eq!(get(opts, "startAtOperationTime"), None);
}

#[test]
fn precedence_start_after_becomes_resume_after() {
    let pipeline = vec![];
    let mut options = ChangeStreamOptions::new();
    options.start_after = Some(token("sa"));
    let built = PipelineBuilder::new(&pipeline, &options, 0).build();
    let opts = stage_options(&built);
    assert_eq!(get(opts, "resumeAfter"), Some(&Bson::Document(token("sa"))));
    assert_eq!(get(opts, "startAfter"), None);
}

#[test]
fn precedence_resume_after_passes_through() {
    let pipeline = vec![];
    let mut options = ChangeStreamOptions::new();
    options.resume_after = Some(token("ra"));
    let built = PipelineBuilder::new(&pipeline, &options, 0).build();
    let opts = stage_options(&built);
    assert_eq!(get(opts, "resumeAfter"), Some(&Bson::Document(token("ra"))));
    assert_eq!(get(opts, "startAfter"), None);
}

#[test]
fn precedence_last_optime_beats_start_time() {
    let pipeline = vec![];
    let mut options = ChangeStreamOptions::new();
    options.start_at_operation_time = Some(Timestamp { t: 1, i: 1 });
    let seen = Timestamp { t: 42, i: 7 };
    let built = PipelineBuilder::new(&pipeline, &options, 0).last_optime(Some(&seen)).build();
    let opts = stage_options(&built);
    assert_eq!(
        get(opts, "startAtOperationTime"),
        Some(&Bson::TimeStamp(Timestamp { t: 42, i: 7 }))
    );
    assert_eq!(get(opts, "resumeAfter"), None);
}

#[test]
fn precedence_start_time_alone() {
    let pipeline = vec![];
    let mut options = ChangeStreamOptions::new();
    options.start_at_operation_time = Some(Timestamp { t: 1, i: 1 });
    let built = PipelineBuilder::new(&pipeline, &options, 0).build();
    let opts = stage_options(&built);
    assert_eq!(
        get(opts, "startAtOperationTime"),
        Some(&Bson::TimeStamp(Timestamp { t: 1, i: 1 }))
    );
}

#[test]
fn fresh_start_keeps_options_untouched() {
    let pipeline = vec![];
    let mut options = ChangeStreamOptions::new();
    options.max_await = Some(1500);
    options.batch_size = Some(10);
    let built = PipelineBuilder::new(&pipeline, &options, 0).build();
    let opts = stage_options(&built);
    assert_eq!(get(opts, "fullDocument"), Some(&Bson::String("default".to_string())));
    assert_eq!(get(opts, "maxAwaitTimeMS"), Some(&Bson::I64(1500)));
    assert_eq!(get(opts, "batchSize"), Some(&Bson::I32(10)));
    assert_eq!(get(opts, "resumeAfter"), None);
    assert_eq!(get(opts, "startAfter"), None);
    assert_eq!(get(opts, "startAtOperationTime"), None);
    assert_eq!(get(opts, "allChangesForCluster"), None);
}

#[test]
fn cluster_flag_is_set_for_deployment_watches() {
    let pipeline = vec![];
    let options = ChangeStreamOptions::new();
    let built = PipelineBuilder::new(&pipeline, &options, 0).for_cluster().build();
    let opts = stage_options(&built);
    assert_eq!(get(opts, "allChangesForCluster"), Some(&Bson::Boolean(true)));
}

#[test]
fn original_stages_follow_the_feed_stage() {
    let mut s1 = Document::new();
    s1.insert("$match".to_string(), Bson::Document(Document::new()));
    let pipeline = vec![s1.deep_clone()];
    let options = ChangeStreamOptions::new();
    let built = PipelineBuilder::new(&pipeline, &options, 0).build();
    assert_eq!(built.len(), 2);
    assert!(get(&built[0], "$changeFeed").is_some());
    assert_eq!(built[1], s1);
}

#[test]
fn update_lookup_mode_serializes() {
    let pipeline = vec![];
    let mut options = ChangeStreamOptions::new();
    options.full_document = ChangeStreamOptionsFullDocument::UpdateLookup;
    let built = PipelineBuilder::new(&pipeline, &options, 0).build();
    let opts = stage_options(&built);
    assert_eq!(get(opts, "fullDocument"), Some(&Bson::String("updateLookup".to_string())));
}
