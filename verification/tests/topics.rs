use replay::route::{Codec, Router, Routing, BUFFER_SCHEMA, IMAGE_SCHEMA, VIDEO_SCHEMA};
use replay::topics::{note_topic, rooted_topic, sanitize_topics, selects};

fn list(topics: &[&str]) -> Vec<String> {
    topics.iter().map(|topic| topic.to_string()).collect()
}

#[test]
fn topic_from_the_root_gets_the_root_name() {
    assert_eq!(rooted_topic("/camera/h264"), Some("rt/camera/h264".to_string()));
    assert_eq!(rooted_topic("/"), Some("rt/".to_string()));
}

#[test]
fn topic_without_a_leading_slash_stays() {
    assert_eq!(rooted_topic("rt/camera/h264"), Some("rt/camera/h264".to_string()));
    assert_eq!(rooted_topic("camera"), Some("camera".to_string()));
    assert_eq!(rooted_topic("é/x"), Some("é/x".to_string()));
}

#[test]
fn empty_name_is_no_topic() {
    assert_eq!(rooted_topic(""), None);
}

#[test]
fn sanitized_topics_lose_the_root_name() {
    let mut topics = list(&["rt/camera/h264", "rt/imu"]);
    sanitize_topics(&mut topics);
    assert_eq!(topics, list(&["/camera/h264", "/imu"]));
}

#[test]
fn sanitized_topics_are_sorted() {
    let mut topics = list(&["/radar", "rt/camera", "/imu", "rt/zed", "/Camera", "/caméra"]);
    sanitize_topics(&mut topics);
    assert_eq!(
        topics,
        list(&["/Camera", "/camera", "/caméra", "/imu", "/radar", "/zed"])
    );
}

#[test]
fn sanitized_topics_drop_the_empty_ones() {
    let mut topics = list(&["", "rt/a", "", "b"]);
    sanitize_topics(&mut topics);
    assert_eq!(topics, list(&["/a", "b"]));
    let mut none = list(&["", ""]);
    sanitize_topics(&mut none);
    assert!(none.is_empty());
}

#[test]
fn sanitized_topics_keep_repeats() {
    let mut topics = list(&["rt/a", "/a", "/a"]);
    sanitize_topics(&mut topics);
    assert_eq!(topics, list(&["/a", "/a", "/a"]));
}

#[test]
fn only_a_whole_root_name_is_taken_off() {
    let mut topics = list(&["rt", "rtx/a", "rt/", "art/b", "rt/rt/c"]);
    sanitize_topics(&mut topics);
    assert_eq!(topics, list(&["/", "/rt/c", "art/b", "rt", "rtx/a"]));
}

#[test]
fn every_topic_is_published_when_none_is_asked_for() {
    assert!(selects(&list(&[]), &list(&[]), "/camera"));
    assert!(selects(&list(&[]), &list(&["/imu"]), "/camera"));
}

#[test]
fn only_topics_asked_for_are_published() {
    let topics = list(&["/camera", "/imu"]);
    assert!(selects(&topics, &list(&[]), "/camera"));
    assert!(selects(&topics, &list(&[]), "/imu"));
    assert!(!selects(&topics, &list(&[]), "/radar"));
    assert!(!selects(&topics, &list(&[]), "/camera/h264"));
    assert!(!selects(&topics, &list(&[]), ""));
}

#[test]
fn ignored_topics_are_not_published() {
    let topics = list(&["/camera", "/imu"]);
    assert!(!selects(&topics, &list(&["/camera"]), "/camera"));
    assert!(selects(&topics, &list(&["/camera"]), "/imu"));
    assert!(!selects(&list(&[]), &list(&["/camera"]), "/camera"));
}

#[test]
fn topic_is_new_once() {
    let mut seen = Vec::new();
    assert!(note_topic(&mut seen, "/camera"));
    assert!(note_topic(&mut seen, "/imu"));
    assert!(!note_topic(&mut seen, "/camera"));
    assert!(!note_topic(&mut seen, "/imu"));
    assert!(note_topic(&mut seen, ""));
    assert_eq!(seen, list(&["/camera", "/imu", ""]));
}

#[test]
fn schemas_are_spelt_as_the_recordings_spell_them() {
    assert_eq!(VIDEO_SCHEMA, "foxglove_msgs/msg/CompressedVideo");
    assert_eq!(IMAGE_SCHEMA, "sensor_msgs/msg/CompressedImage");
    assert_eq!(BUFFER_SCHEMA, "edgefirst_msgs/msg/DmaBuffer");
}

#[test]
fn video_is_decoded_and_forwarded() {
    let mut router = Router::new();
    assert_eq!(
        router.route(VIDEO_SCHEMA),
        Routing {
            decode: Some(Codec::H264),
            forward: true
        }
    );
}

#[test]
fn images_are_decoded_until_video_is_seen() {
    let mut router = Router::new();
    let decoded = Routing {
        decode: Some(Codec::Jpeg),
        forward: true,
    };
    let forwarded = Routing {
        decode: None,
        forward: true,
    };
    assert_eq!(router.route(IMAGE_SCHEMA), decoded);
    assert_eq!(router.route(IMAGE_SCHEMA), decoded);
    router.route(VIDEO_SCHEMA);
    assert_eq!(router.route(IMAGE_SCHEMA), forwarded);
    assert_eq!(router.route(IMAGE_SCHEMA), forwarded);
}

#[test]
fn buffer_announcements_are_dropped() {
    let mut router = Router::new();
    assert_eq!(
        router.route(BUFFER_SCHEMA),
        Routing {
            decode: None,
            forward: false
        }
    );
}

#[test]
fn other_messages_are_forwarded() {
    let mut router = Router::new();
    let forwarded = Routing {
        decode: None,
        forward: true,
    };
    assert_eq!(router.route("sensor_msgs/msg/Imu"), forwarded);
    assert_eq!(router.route(""), forwarded);
    assert_eq!(router.route("foxglove_msgs/msg/compressedvideo"), forwarded);
    assert_eq!(
        router.route(IMAGE_SCHEMA),
        Routing {
            decode: Some(Codec::Jpeg),
            forward: true
        }
    );
}

#[test]
fn payload_has_to_call_its_format_by_the_codec() {
    assert!(Router::accepts(Codec::H264, "h264"));
    assert!(Router::accepts(Codec::Jpeg, "jpeg"));
    assert!(!Router::accepts(Codec::H264, "jpeg"));
    assert!(!Router::accepts(Codec::Jpeg, "h264"));
    assert!(!Router::accepts(Codec::H264, "H264"));
    assert!(!Router::accepts(Codec::H264, "h265"));
    assert!(!Router::accepts(Codec::Jpeg, "jpg"));
    assert!(!Router::accepts(Codec::Jpeg, ""));
}
