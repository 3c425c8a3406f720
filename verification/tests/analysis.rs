//! Sound analysis bookkeeping and status values.

use cidre::av::{AudioBuf, AudioFormat};
use cidre::cm::{Time, TimeRange};
use cidre::os::Status;
use cidre::sn::analyzer::{AudioFileAnalyzer, AudioStreamAnalyzer};
use cidre::sn::classification_result::{Classification, ClassificationResult};
use cidre::sn::Request;

#[test]
fn analyzer_basics() {
}

#[test]
fn stream_analyzer_tracks_requests() {
    let format = AudioFormat::standard(16000, 1);
    let mut analyzer = AudioStreamAnalyzer::with_format(&format);

    let req = Request { id: 5 };
    assert!(analyzer.add_request(&req).is_ok());
    // Adding the same request again is rejected.
    assert!(analyzer.add_request(&req).is_err());

    analyzer.analyze_audio_buf_at_pos(&AudioBuf { frame_len: 512 }, 0);
    analyzer.analyze_audio_buf_at_pos(&AudioBuf { frame_len: 512 }, 512);
    assert_eq!(analyzer.processed_count(), 2);
    analyzer.complete_analysis();

    analyzer.remove_request(&req);
    assert!(analyzer.add_request(&req).is_ok());
    analyzer.remove_all_requests();
}

#[test]
fn file_analyzer_cancel_suppresses_analysis() {
    let mut analyzer = AudioFileAnalyzer::with_url(String::from("recording.wav"));
    let req = Request { id: 9 };
    assert!(analyzer.add_request(&req).is_ok());

    analyzer.cancel_analysis();
    assert!(analyzer.is_cancelled());
    analyzer.analyze();
    assert!(!analyzer.did_analyze());

    let mut fresh = AudioFileAnalyzer::with_url(String::from("recording.wav"));
    fresh.analyze();
    assert!(fresh.did_analyze());

    analyzer.remove_request(&req);
    analyzer.remove_all_requests();
}

#[test]
fn classification_lookup_finds_the_first_label() {
    let labels = vec![
        Classification::new(String::from("speech"), 0),
        Classification::new(String::from("music"), 1),
    ];
    let range = TimeRange { start: Time::new(0, 1000), duration: Time::new(500, 1000) };
    let result = ClassificationResult::new(labels, range);

    assert_eq!(result.classifications().len(), 2);
    assert_eq!(result.time_range().duration.value, 500);

    let hit = result.classification_for_id(&String::from("music")).unwrap();
    assert_eq!(hit.rank(), 1);
    assert_eq!(hit.id(), "music");
    assert!(result.classification_for_id(&String::from("birds")).is_none());
}

#[test]
fn status_partitions_results() {
    let ok = Status(0);
    assert!(ok.is_ok());
    assert!(!ok.is_err());
    assert_eq!(ok.result(), Ok(()));
    assert_eq!(ok.to_result_option(Some(7)), Ok(Some(7)));
    assert_eq!(Status::no_err(), Status(0));

    let err = Status(-50);
    assert!(err.is_err());
    assert!(!err.is_ok());
    assert_eq!(err.result(), Err(Status(-50)));
    assert_eq!(err.to_result_option(Some(7)), Err(Status(-50)));

    // The unchecked pairing: a success must come with a value, and then
    // hands it out unwrapped; an error keeps its code.
    assert_eq!(ok.to_result_unchecked(Some(7)), Ok(7));
    assert_eq!(err.to_result_unchecked(Some(7)), Err(Status(-50)));
    assert_eq!(err.to_result_unchecked(None::<i32>), Err(Status(-50)));
}
