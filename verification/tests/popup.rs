use stela::notification::{Hints, ImageData, Notification};
use stela::ui::popup::{
    ImageError, Manager, Placement, PopupItem, Windows, GAP, IMAGE_SIZE, MARGIN, WIDTH,
};

fn note(app_icon: &str, summary: &str, body: &str, image_data: Option<ImageData>) -> Notification {
    Notification {
        app_name: "mail".to_string(),
        replaces_id: 0,
        app_icon: app_icon.to_string(),
        summary: summary.to_string(),
        body: body.to_string(),
        actions: vec![],
        hints: Hints { image_data },
        expire_timeout: -1,
        created_at: 0,
    }
}

fn image() -> ImageData {
    ImageData {
        width: 2,
        height: 2,
        rowstride: 8,
        has_alpha: false,
        bits_per_sample: 8,
        channels: 3,
        data: vec![0; 16],
    }
}

fn place(identity: u64, offset: i128) -> Placement {
    Placement { identity, offset }
}

#[test]
fn constants() {
    assert_eq!(GAP, 10);
    assert_eq!(MARGIN, 10);
    assert_eq!(WIDTH, 350);
    assert_eq!(IMAGE_SIZE, 48);
}

#[test]
fn three_pushes_stack_newest_first() {
    let mut manager = Manager::new();
    assert_eq!(manager.push(1, 50), vec![place(1, 10)]);
    assert_eq!(manager.push(2, 60), vec![place(2, 10), place(1, 80)]);
    assert_eq!(manager.push(3, 70), vec![place(3, 10), place(2, 90), place(1, 160)]);
    assert_eq!(manager.windows().len(), 3);
    assert_eq!(manager.windows().get(0), Some(PopupItem { identity: 1, measured_height: 50 }));
    assert_eq!(manager.windows().get(2), Some(PopupItem { identity: 3, measured_height: 70 }));
    assert_eq!(manager.windows().get(3), None);
}

#[test]
fn removing_the_middle_lifts_the_older() {
    let mut manager = Manager::new();
    manager.push(1, 50);
    manager.push(2, 60);
    manager.push(3, 70);
    assert_eq!(manager.remove(2), vec![place(3, 10), place(1, 90)]);
    assert_eq!(manager.windows().len(), 2);
    assert_eq!(manager.windows().get(0), Some(PopupItem { identity: 1, measured_height: 50 }));
    assert_eq!(manager.windows().get(1), Some(PopupItem { identity: 3, measured_height: 70 }));
}

#[test]
fn removing_the_newest_lifts_all() {
    let mut manager = Manager::new();
    manager.push(1, 50);
    manager.push(2, 60);
    manager.push(3, 70);
    assert_eq!(manager.remove(3), vec![place(2, 10), place(1, 80)]);
}

#[test]
fn removing_the_oldest_moves_nothing() {
    let mut manager = Manager::new();
    manager.push(1, 50);
    manager.push(2, 60);
    manager.push(3, 70);
    assert_eq!(manager.remove(1), vec![place(3, 10), place(2, 90)]);
}

#[test]
fn removing_an_unknown_popup_changes_nothing() {
    let mut manager = Manager::new();
    manager.push(1, 50);
    manager.push(2, 60);
    assert_eq!(manager.remove(9), vec![place(2, 10), place(1, 80)]);
    assert_eq!(manager.windows().len(), 2);
    let mut empty = Manager::new();
    assert_eq!(empty.remove(1), vec![]);
    assert_eq!(empty.windows().len(), 0);
}

#[test]
fn removing_the_last_popup_empties_the_stack() {
    let mut manager = Manager::new();
    manager.push(4, 20);
    assert_eq!(manager.remove(4), vec![]);
    assert_eq!(manager.windows().len(), 0);
    assert_eq!(manager.push(5, 30), vec![place(5, 10)]);
}

#[test]
fn push_after_remove_goes_on_top() {
    let mut manager = Manager::new();
    manager.push(1, 50);
    manager.push(2, 60);
    manager.remove(1);
    assert_eq!(manager.push(3, 5), vec![place(3, 10), place(2, 25)]);
}

#[test]
fn measuring_again_moves_the_older() {
    let mut manager = Manager::new();
    manager.push(1, 50);
    manager.push(2, 60);
    manager.push(3, 70);
    assert_eq!(manager.measure(2, 100), vec![place(3, 10), place(2, 90), place(1, 200)]);
    assert_eq!(manager.measure(9, 1), vec![place(3, 10), place(2, 90), place(1, 200)]);
    assert_eq!(manager.windows().get(1), Some(PopupItem { identity: 2, measured_height: 100 }));
}

#[test]
fn windows_keep_the_order_of_pushing() {
    let mut windows = Windows::new();
    assert_eq!(windows.len(), 0);
    assert_eq!(windows.adjust(), vec![]);
    for identity in [5, 3, 8, 3] {
        windows.push(PopupItem { identity, measured_height: 1 });
    }
    assert_eq!(
        windows.adjust(),
        vec![place(3, 10), place(8, 21), place(3, 32), place(5, 43)]
    );
    windows.remove(3);
    assert_eq!(windows.len(), 2);
    assert_eq!(windows.get(0), Some(PopupItem { identity: 5, measured_height: 1 }));
    assert_eq!(windows.get(1), Some(PopupItem { identity: 8, measured_height: 1 }));
    windows.measure(5, 7);
    assert_eq!(windows.get(0), Some(PopupItem { identity: 5, measured_height: 7 }));
    assert_eq!(windows.adjust(), vec![place(8, 10), place(5, 21)]);
    assert_eq!(windows.adjust(), vec![place(8, 10), place(5, 21)]);
}

#[test]
fn tall_columns_do_not_wrap() {
    let mut manager = Manager::new();
    manager.push(1, i32::MAX);
    manager.push(2, i32::MAX);
    let placements = manager.push(3, i32::MAX);
    let step = i32::MAX as i128 + 10;
    assert_eq!(placements, vec![place(3, 10), place(2, 10 + step), place(1, 10 + 2 * step)]);
    let placements = manager.measure(3, i32::MIN);
    assert_eq!(placements[1], place(2, 10 + i32::MIN as i128 + 10));
}

#[test]
fn empty_notification_still_makes_a_popup() {
    let popup = Manager::compose(note("", "", "", None), "09:05".to_string());
    assert_eq!(popup.app_name, "mail");
    assert_eq!(popup.time, "09:05");
    assert_eq!(popup.icon, None);
    assert_eq!(popup.summary, None);
    assert_eq!(popup.body, None);
    assert_eq!(popup.image, None);
    assert_eq!(popup.image_error, None);
    assert!(!popup.has_content());
    let mut manager = Manager::new();
    assert_eq!(manager.push(1, 24), vec![place(1, 10)]);
    assert_eq!(manager.windows().get(0), Some(PopupItem { identity: 1, measured_height: 24 }));
}

#[test]
fn compose_shows_what_is_there() {
    let popup = Manager::compose(
        note("mail-unread", "New message", "Lunch?", Some(image())),
        "23:59".to_string(),
    );
    assert_eq!(popup.icon, Some("mail-unread".to_string()));
    assert_eq!(popup.summary, Some("New message".to_string()));
    assert_eq!(popup.body, Some("Lunch?".to_string()));
    assert!(popup.has_content());
    assert_eq!(popup.image_error, None);
    let bitmap = popup.image.unwrap();
    assert_eq!(bitmap.width(), 2);
    assert_eq!(bitmap.height(), 2);
    assert_eq!(bitmap.rowstride(), 8);
    assert!(!bitmap.has_alpha());
    assert_eq!(bitmap.into_data(), vec![0; 16]);
}

#[test]
fn compose_has_content_for_an_image_alone() {
    let popup = Manager::compose(note("", "", "", Some(image())), "00:00".to_string());
    assert_eq!(popup.body, None);
    assert!(popup.image.is_some());
    assert!(popup.has_content());
}

#[test]
fn compose_drops_an_image_that_cannot_be_drawn() {
    let mut broken = image();
    broken.data.truncate(15);
    let popup = Manager::compose(note("", "Hi", "", Some(broken)), "00:00".to_string());
    assert_eq!(popup.image, None);
    assert_eq!(popup.image_error, Some(ImageError::Truncated));
    assert_eq!(popup.summary, Some("Hi".to_string()));
    assert!(!popup.has_content());
}

#[test]
fn popup_window_carries_the_time_of_day() {
    let popup = Manager::create_popup_window(note("", "Hi", "there", None));
    let time: Vec<char> = popup.time.chars().collect();
    assert_eq!(time.len(), 5);
    assert!(time[0].is_ascii_digit());
    assert!(time[1].is_ascii_digit());
    assert_eq!(time[2], ':');
    assert!(time[3].is_ascii_digit());
    assert!(time[4].is_ascii_digit());
    assert_eq!(popup.summary, Some("Hi".to_string()));
    assert_eq!(popup.body, Some("there".to_string()));
    assert_eq!(popup.app_name, "mail");
}

#[test]
fn image_with_alpha() {
    let bitmap = Manager::image(ImageData {
        width: 1,
        height: 3,
        rowstride: 4,
        has_alpha: true,
        bits_per_sample: 8,
        channels: 4,
        data: vec![9; 12],
    })
    .unwrap();
    assert_eq!(bitmap.width(), 1);
    assert_eq!(bitmap.height(), 3);
    assert_eq!(bitmap.rowstride(), 4);
    assert!(bitmap.has_alpha());
    assert_eq!(bitmap.into_data(), vec![9; 12]);
}

#[test]
fn image_with_padding_and_spare_bytes() {
    let mut padded = image();
    padded.rowstride = 10;
    padded.data = vec![1; 25];
    let bitmap = Manager::image(padded).unwrap();
    assert_eq!(bitmap.rowstride(), 10);
    assert_eq!(bitmap.into_data().len(), 25);
}

#[test]
fn image_errors() {
    let mut wide = image();
    wide.bits_per_sample = 16;
    assert_eq!(Manager::image(wide), Err(ImageError::SampleWidth));
    let mut alpha = image();
    alpha.has_alpha = true;
    assert_eq!(Manager::image(alpha), Err(ImageError::Channels));
    let mut channels = image();
    channels.channels = 4;
    assert_eq!(Manager::image(channels), Err(ImageError::Channels));
    let mut flat = image();
    flat.height = 0;
    assert_eq!(Manager::image(flat), Err(ImageError::Size));
    let mut thin = image();
    thin.width = -2;
    assert_eq!(Manager::image(thin), Err(ImageError::Size));
    let mut narrow = image();
    narrow.rowstride = 5;
    assert_eq!(Manager::image(narrow), Err(ImageError::Rowstride));
    let mut short = image();
    short.data = vec![0; 15];
    assert_eq!(Manager::image(short), Err(ImageError::Truncated));
}

#[test]
fn image_errors_come_in_order() {
    let all_wrong = ImageData {
        width: 0,
        height: 0,
        rowstride: -1,
        has_alpha: true,
        bits_per_sample: 1,
        channels: 3,
        data: vec![],
    };
    assert_eq!(Manager::image(all_wrong.clone()), Err(ImageError::SampleWidth));
    let fixed = ImageData { bits_per_sample: 8, ..all_wrong };
    assert_eq!(Manager::image(fixed.clone()), Err(ImageError::Channels));
    let fixed = ImageData { channels: 4, ..fixed };
    assert_eq!(Manager::image(fixed.clone()), Err(ImageError::Size));
    let fixed = ImageData { width: 1, height: 1, ..fixed };
    assert_eq!(Manager::image(fixed.clone()), Err(ImageError::Rowstride));
    let fixed = ImageData { rowstride: 4, ..fixed };
    assert_eq!(Manager::image(fixed.clone()), Err(ImageError::Truncated));
    let fixed = ImageData { data: vec![0; 4], ..fixed };
    assert!(Manager::image(fixed).is_ok());
}

#[test]
fn image_of_the_largest_size_is_truncated() {
    let huge = ImageData {
        width: i32::MAX,
        height: i32::MAX,
        rowstride: i32::MAX,
        has_alpha: false,
        bits_per_sample: 8,
        channels: 3,
        data: vec![0; 64],
    };
    assert_eq!(Manager::image(huge), Err(ImageError::Rowstride));
    let tall = ImageData {
        width: 1,
        height: i32::MAX,
        rowstride: i32::MAX,
        has_alpha: false,
        bits_per_sample: 8,
        channels: 3,
        data: vec![0; 64],
    };
    assert_eq!(Manager::image(tall), Err(ImageError::Truncated));
}
