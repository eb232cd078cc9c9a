use chat_sync::clock::{time_ago, time_ago_short, time_local, LocalTime, ShortTime, TimeAgo};
use chat_sync::types::{latest_message, MessageAttr, MessageContent, RoomAttr};

fn at(year: i32, month: u32, day: u32, hour: u32, minute: u32) -> LocalTime {
    LocalTime { year, month, day, hour, minute }
}

#[test]
fn buckets_of_time_ago() {
    let now = at(2023, 3, 8, 12, 0);
    assert_eq!(time_ago(&at(2023, 3, 8, 1, 30), &now), TimeAgo::Today);
    assert_eq!(time_ago(&at(2023, 3, 7, 23, 59), &now), TimeAgo::Yesterday);
    assert_eq!(time_ago(&at(2023, 3, 6, 9, 5), &now), TimeAgo::ThisYear(at(2023, 3, 6, 0, 0)));
    assert_eq!(time_ago(&at(2023, 2, 28, 9, 5), &now), TimeAgo::ThisYear(at(2023, 2, 28, 0, 0)));
    assert_eq!(time_ago(&at(2022, 3, 8, 9, 5), &now), TimeAgo::EarlierYear(at(2022, 3, 8, 0, 0)));
}

#[test]
fn buckets_of_short_time() {
    let now = at(2023, 3, 8, 12, 0);
    assert_eq!(time_ago_short(&at(2023, 3, 8, 9, 5), &now), ShortTime::Clock(at(2023, 3, 8, 9, 5)));
    assert_eq!(time_ago_short(&at(2023, 3, 7, 9, 5), &now), ShortTime::Yesterday);
    assert_eq!(time_ago_short(&at(2023, 1, 7, 9, 5), &now), ShortTime::MonthDay(at(2023, 1, 7, 9, 5)));
    assert_eq!(time_ago_short(&at(2021, 1, 7, 9, 5), &now), ShortTime::FullDate(at(2021, 1, 7, 9, 5)));
}

#[test]
fn labels_are_rendered() {
    assert_eq!(TimeAgo::Today.label(), "Today");
    assert_eq!(TimeAgo::Yesterday.label(), "Yesterday");
    assert_eq!(TimeAgo::ThisYear(at(2023, 3, 6, 0, 0)).label(), "Monday, 6 March");
    assert_eq!(TimeAgo::EarlierYear(at(2022, 3, 8, 0, 0)).label(), "8 March, 2022");
    assert_eq!(ShortTime::Clock(at(2023, 3, 8, 9, 5)).label(), "09:05");
    assert_eq!(ShortTime::MonthDay(at(2023, 1, 7, 9, 5)).label(), "01-07");
    assert_eq!(ShortTime::FullDate(at(2021, 1, 7, 9, 5)).label(), "2021-01-07");
    assert_eq!(time_local(&at(2021, 1, 7, 23, 45)), "23:45");
}

fn stored(send_at: i64) -> MessageAttr {
    MessageAttr {
        id: 1,
        sid: 2,
        name: "ann".to_string(),
        avatar: String::new(),
        content: "hello".to_string(),
        kind: "text".to_string(),
        send_at,
    }
}

#[test]
fn readings_of_the_machine_clock_are_rendered() {
    let shown = MessageContent::from_attr(&stored(1_678_276_800_000_000));
    let digits: Vec<char> = shown.send_at.chars().collect();
    assert_eq!(digits.len(), 5);
    assert_eq!(digits[2], ':');
    assert_eq!(shown.content, "hello");
    let out_of_range = MessageContent::from_attr(&stored(i64::MAX));
    assert_eq!(out_of_range.send_at, "");

    let room = RoomAttr {
        id: 1,
        name: "g".to_string(),
        cover: String::new(),
        category: "public".to_string(),
        unreads: 0,
        members: vec![],
        messages: vec![stored(1_678_276_800_000_000)],
    };
    let (text, when) = latest_message(&room);
    assert_eq!(text, "ann: hello");
    assert!(!when.is_empty());
    assert_ne!(when, "%m-%d");
    assert_ne!(when, "%Y-%m-%d");
}
