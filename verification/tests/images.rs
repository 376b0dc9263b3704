use mngdx::app::reader::{PageDownload, PageReader, Reader};
use mngdx::app::state::AppState;
use mngdx::images::manager::ImageManager;
use mngdx::images::protocol::{
    delete_all_placements, delete_placement, display_image, load_image_commands, unload_image,
};
use mngdx::images::{Area, Image, ImageFailure, ImagePlacement, TermWinSize};
use mngdx::text::{contains, decimal_string};

const PNG: [u8; 71] = [
    137, 80, 78, 71, 13, 10, 26, 10, 0, 0, 0, 13, 73, 72, 68, 82, 0, 0, 0, 2, 0, 0, 0, 1, 8, 6, 0,
    0, 0, 244, 34, 127, 138, 0, 0, 0, 14, 73, 68, 65, 84, 120, 156, 99, 248, 207, 192, 0, 66, 13,
    0, 15, 122, 3, 126, 119, 233, 127, 151, 0, 0, 0, 0, 73, 69, 78, 68, 174, 66, 96, 130,
];

fn pixel(id: u8) -> Image {
    Image { width: 1, height: 1, rgba: vec![id, 0, 0, 255] }
}

fn at(x: u32, y: u32) -> ImagePlacement {
    ImagePlacement { x, y, ..ImagePlacement::default() }
}

#[test]
fn default_placement() {
    let placement = ImagePlacement::default();
    assert_eq!(placement.source_x, 0);
    assert_eq!(placement.source_y, 0);
    assert_eq!(placement.source_width, None);
    assert_eq!(placement.source_height, None);
    assert_eq!(placement.width, None);
    assert_eq!(placement.height, None);
    assert_eq!(placement.x, 0);
    assert_eq!(placement.y, 0);
    assert_eq!(placement.z_index, 50000);
}

#[test]
fn window_size_holds_pixels_and_cells() {
    let size = TermWinSize { width: 800, height: 600, cols: 80, rows: 24 };
    assert_eq!(size.cols, 80);
    assert_eq!(size, size.clone());
}

#[test]
fn decimal_digits() {
    assert_eq!(decimal_string(0), "0");
    assert_eq!(decimal_string(7), "7");
    assert_eq!(decimal_string(10), "10");
    assert_eq!(decimal_string(4096), "4096");
    assert_eq!(decimal_string(u64::MAX), "18446744073709551615");
}

#[test]
fn text_search() {
    let hay: Vec<char> = "GxxENOENTyy".chars().collect();
    let needle: Vec<char> = "ENOENT".chars().collect();
    assert!(contains(&hay, &needle));
    assert!(contains(&hay, &vec![]));
    assert!(!contains(&needle, &hay));
    let near: Vec<char> = "ENOENENOEN".chars().collect();
    assert!(!contains(&near, &needle));
    let late: Vec<char> = "ENOENENOENT".chars().collect();
    assert!(contains(&late, &needle));
}

#[test]
fn display_command_text() {
    assert_eq!(
        display_image(3, 1, at(5, 7)),
        "\x1b[7;5H\x1b_Ga=p,C=1,z=50000,i=3,p=1,x=0,y=0;AAAA\x1b\\"
    );
    let placement = ImagePlacement {
        source_x: 1,
        source_y: 2,
        source_width: Some(30),
        source_height: None,
        width: Some(40),
        height: Some(12),
        x: 9,
        y: 0,
        z_index: -4,
    };
    assert_eq!(
        display_image(11, 2, placement),
        "\x1b[0;9H\x1b_Ga=p,C=1,z=-4,i=11,p=2,x=1,y=2,w=30,c=40,r=12;AAAA\x1b\\"
    );
    let lowest = ImagePlacement { z_index: i32::MIN, source_height: Some(8), ..at(0, 0) };
    assert_eq!(
        display_image(u32::MAX, 0, lowest),
        "\x1b[0;0H\x1b_Ga=p,C=1,z=-2147483648,i=4294967295,p=0,x=0,y=0,h=8;AAAA\x1b\\"
    );
}

#[test]
fn delete_and_unload_command_text() {
    assert_eq!(delete_all_placements(), "\x1b_Ga=d,d=a;AAAA\x1b\\");
    assert_eq!(delete_placement(12, 1), "\x1b_Ga=d,d=i,i=12,p=1;AAAA\x1b\\");
    assert_eq!(unload_image(12), "\x1b_Ga=d,d=i,i=12;AAAA\x1b\\");
}

#[test]
fn load_commands_split_the_payload() {
    assert!(load_image_commands(1, 2, 3, "").is_empty());
    assert_eq!(load_image_commands(1, 2, 3, "QUJD"), vec!["\x1b_Gf=32,i=1,s=2,v=3,t=d,m=1;QUJD\x1b\\"]);
    let payload = "A".repeat(4096) + &"B".repeat(4096) + "CC";
    let commands = load_image_commands(9, 100, 50, &payload);
    assert_eq!(commands.len(), 3);
    assert_eq!(
        commands[0],
        format!("\x1b_Gf=32,i=9,s=100,v=50,t=d,m=1;{}\x1b\\", "A".repeat(4096))
    );
    assert_eq!(commands[1], format!("\x1b_Gm=1;{}\x1b\\", "B".repeat(4096)));
    assert_eq!(commands[2], "\x1b_Gm=0;CC\x1b\\");
    let exact = load_image_commands(9, 1, 1, &"A".repeat(8192));
    assert_eq!(exact.len(), 2);
    assert_eq!(exact[1], format!("\x1b_Gm=0;{}\x1b\\", "A".repeat(4096)));
}

#[test]
fn load_commands_count_characters_not_bytes() {
    let payload = "é".repeat(4097);
    let commands = load_image_commands(1, 1, 1, &payload);
    assert_eq!(commands.len(), 2);
    assert_eq!(commands[1], "\x1b_Gm=0;é\x1b\\");
}

#[test]
fn placements_need_an_image() {
    let mut manager = ImageManager::new();
    assert_eq!(manager.display_image(1, at(0, 0)), Err(ImageFailure::Missing));
    assert!(manager.draw().is_empty());
    manager.add_image(1, pixel(1));
    assert_eq!(manager.get_image(1), Some(&pixel(1)));
    assert_eq!(manager.get_image(2), None);
    assert_eq!(manager.display_image(1, at(0, 0)), Ok(()));
}

#[test]
fn draw_loads_shows_and_settles() {
    let mut manager = ImageManager::new();
    manager.add_image(1, pixel(1));
    manager.display_image(1, at(2, 3)).unwrap();
    let commands = manager.draw();
    assert_eq!(
        commands,
        vec![
            "\x1b_Gf=32,i=1,s=1,v=1,t=d,m=1;AQAA/w==\x1b\\".to_string(),
            "\x1b[3;2H\x1b_Ga=p,C=1,z=50000,i=1,p=1,x=0,y=0;AAAA\x1b\\".to_string(),
        ]
    );
    assert!(manager.is_loaded(1));
    assert!(manager.draw().is_empty());
}

#[test]
fn moved_placement_is_sent_and_old_one_deleted() {
    let mut manager = ImageManager::new();
    manager.add_image(1, pixel(1));
    manager.display_image(1, at(2, 3)).unwrap();
    manager.draw();
    manager.display_image(1, at(4, 4)).unwrap();
    assert_eq!(
        manager.draw(),
        vec![
            "\x1b[4;4H\x1b_Ga=p,C=1,z=50000,i=1,p=1,x=0,y=0;AAAA\x1b\\".to_string(),
            "\x1b_Ga=d,d=i,i=1,p=1;AAAA\x1b\\".to_string(),
        ]
    );
}

#[test]
fn hidden_image_is_taken_away() {
    let mut manager = ImageManager::new();
    manager.add_image(1, pixel(1));
    manager.add_image(2, pixel(2));
    manager.display_image(1, at(0, 0)).unwrap();
    manager.display_image(2, at(1, 1)).unwrap();
    assert_eq!(manager.draw().len(), 4);
    manager.hide_image(1);
    assert_eq!(manager.draw(), vec!["\x1b_Ga=d,d=i,i=1,p=1;AAAA\x1b\\".to_string()]);
    manager.hide_image(7);
    assert!(manager.draw().is_empty());
    manager.hide_all_images();
    assert_eq!(manager.draw(), vec!["\x1b_Ga=d,d=i,i=2,p=1;AAAA\x1b\\".to_string()]);
}

#[test]
fn invalidate_sends_everything_again() {
    let mut manager = ImageManager::new();
    manager.add_image(1, pixel(1));
    manager.display_image(1, at(2, 3)).unwrap();
    let first = manager.draw();
    assert!(manager.draw().is_empty());
    manager.force_invalidate();
    assert!(!manager.is_loaded(1));
    assert_eq!(manager.draw(), first);
}

#[test]
fn force_reload_sends_images_with_the_next_new_placement() {
    let mut manager = ImageManager::new();
    manager.add_image(1, pixel(1));
    manager.display_image(1, at(2, 3)).unwrap();
    manager.draw();
    manager.force_reload_images();
    assert!(!manager.is_loaded(1));
    assert!(manager.draw().is_empty());
    manager.display_image(1, at(0, 0)).unwrap();
    assert_eq!(manager.draw().len(), 3);
    assert!(manager.is_loaded(1));
}

#[test]
fn unload_all_forgets_every_image() {
    let mut manager = ImageManager::new();
    manager.add_image(1, pixel(1));
    manager.add_image(2, pixel(2));
    manager.display_image(1, at(0, 0)).unwrap();
    manager.display_image(2, at(0, 0)).unwrap();
    manager.draw();
    assert_eq!(
        manager.unload_all(),
        vec![
            "\x1b_Ga=d,d=i,i=2;AAAA\x1b\\".to_string(),
            "\x1b_Ga=d,d=i,i=1;AAAA\x1b\\".to_string(),
        ]
    );
    assert!(!manager.is_loaded(1));
    assert!(manager.unload_all().is_empty());
}

#[test]
fn slots_are_bounded() {
    let mut manager = ImageManager::new();
    for id in 1..=21u32 {
        manager.add_image(id, pixel(id as u8));
        manager.display_image(id, at(id, 0)).unwrap();
    }
    let commands = manager.draw();
    // 21 loads, 21 placements, and one unload of the image at the back.
    assert_eq!(commands.len(), 43);
    assert_eq!(commands[40], "\x1b_Ga=d,d=i,i=1;AAAA\x1b\\");
    assert!(!manager.is_loaded(1));
    for id in 2..=21u32 {
        assert!(manager.is_loaded(id));
    }
}

#[test]
fn clear_removes_images_and_wishes() {
    let mut manager = ImageManager::new();
    manager.add_image(1, pixel(1));
    manager.display_image(1, at(0, 0)).unwrap();
    manager.draw();
    manager.clear();
    assert_eq!(manager.get_image(1), None);
    assert_eq!(manager.draw(), vec!["\x1b_Ga=d,d=i,i=1,p=1;AAAA\x1b\\".to_string()]);
    assert_eq!(manager.display_image(1, at(0, 0)), Err(ImageFailure::Missing));
}

#[test]
fn images_are_decoded_from_memory() {
    let mut manager = ImageManager::new();
    assert_eq!(manager.add_from_memory(4, &PNG.to_vec()), Ok(()));
    let image = manager.get_image(4).unwrap();
    assert_eq!(image.width, 2);
    assert_eq!(image.height, 1);
    assert_eq!(image.rgba, vec![255, 0, 0, 255, 0, 0, 255, 128]);
    manager.display_image(4, at(0, 0)).unwrap();
    let commands = manager.draw();
    assert_eq!(commands[0], "\x1b_Gf=32,i=4,s=2,v=1,t=d,m=1;/wAA/wAA/4A=\x1b\\");
}

#[test]
fn bytes_that_are_no_image_are_refused() {
    let mut manager = ImageManager::new();
    assert_eq!(manager.add_from_memory(4, &vec![1, 2, 3]), Err(ImageFailure::Undecodable));
    assert_eq!(manager.add_from_memory(4, &vec![]), Err(ImageFailure::Undecodable));
    assert_eq!(manager.get_image(4), None);
    assert!(ImageManager::can_hold(&pixel(0)));
}

#[test]
fn centered_placement() {
    let mut manager = ImageManager::new();
    manager.add_image(1, pixel(1));
    let area = Area { x: 10, y: 1, width: 80, height: 24 };
    assert_eq!(manager.display_image_centered(1, area, 40, 24), Ok(()));
    let commands = manager.draw();
    assert_eq!(
        commands[1],
        "\x1b[1;30H\x1b_Ga=p,C=1,z=50000,i=1,p=1,x=0,y=0,c=40,r=24;AAAA\x1b\\"
    );
    assert_eq!(manager.display_image_centered(2, area, 40, 24), Err(ImageFailure::Missing));
    // An image that is larger than the area starts at the area's corner.
    assert_eq!(manager.display_image_centered(1, area, 100, 30), Ok(()));
    let commands = manager.draw();
    assert_eq!(
        commands[0],
        "\x1b[1;10H\x1b_Ga=p,C=1,z=50000,i=1,p=1,x=0,y=0,c=100,r=30;AAAA\x1b\\"
    );
}

#[test]
fn reader_walks_the_pages() {
    let mut reader = PageReader::new();
    assert_eq!(reader.current(), 0);
    reader.next();
    assert_eq!(reader.current(), 0);
    let downloads =
        reader.read(vec!["a".to_string(), "b".to_string(), "c".to_string()]);
    assert_eq!(
        downloads,
        vec![
            PageDownload { image: 1, url: "a".to_string() },
            PageDownload { image: 2, url: "b".to_string() },
            PageDownload { image: 3, url: "c".to_string() },
        ]
    );
    assert_eq!(reader.pages(), 3);
    reader.previous();
    assert_eq!(reader.current(), 0);
    reader.next();
    reader.next();
    assert_eq!(reader.current(), 2);
    assert_eq!(reader.current_image(), 3);
    reader.next();
    assert_eq!(reader.current(), 2);
    reader.previous();
    assert_eq!(reader.current(), 1);
    reader.read(vec![]);
    assert_eq!(reader.current(), 0);
    assert_eq!(reader.pages(), 0);
}

#[test]
fn reader_wants_only_its_page() {
    let mut manager = ImageManager::new();
    manager.add_image(1, pixel(1));
    manager.add_image(2, pixel(2));
    let mut reader = PageReader::new();
    reader.read(vec!["a".to_string(), "b".to_string()]);
    let area = Area { x: 0, y: 0, width: 10, height: 10 };
    assert_eq!(reader.draw(area, 4, 6, &mut manager), Ok(()));
    let first = manager.draw();
    assert_eq!(first.len(), 2);
    assert_eq!(first[1], "\x1b[2;3H\x1b_Ga=p,C=1,z=50000,i=1,p=1,x=0,y=0,c=4,r=6;AAAA\x1b\\");
    reader.next();
    assert_eq!(reader.draw(area, 4, 6, &mut manager), Ok(()));
    let second = manager.draw();
    assert_eq!(second.len(), 3);
    assert_eq!(second[2], "\x1b_Ga=d,d=i,i=1,p=1;AAAA\x1b\\");
    let mut empty = ImageManager::new();
    assert_eq!(reader.draw(area, 4, 6, &mut empty), Err(ImageFailure::Missing));
}

#[test]
fn state_starts_with_a_question_mark() {
    let mut state = AppState::new();
    assert_eq!(state.block_name, "?");
    state.set_label("loading".to_string());
    assert_eq!(state.block_name, "loading");
}
