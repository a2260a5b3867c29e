use steal_stickers_bot::entities::StickerSet;
use steal_stickers_bot::stats::GlobalStats;
use steal_stickers_bot::stats::PersonalStats;
use steal_stickers_bot::texts::current_page_message;
use steal_stickers_bot::texts::default_error_message;
use steal_stickers_bot::texts::global_stats_message;
use steal_stickers_bot::texts::html_bold;
use steal_stickers_bot::texts::html_code;
use steal_stickers_bot::texts::html_quote;
use steal_stickers_bot::texts::html_text_link;
use steal_stickers_bot::texts::personal_stats_message;
use steal_stickers_bot::texts::start_message;
use steal_stickers_bot::texts::sticker_set_message;

#[test]
fn current_page_message_test() {
    let mut list = Vec::new();
    for i in 0..5 {
        list.push(StickerSet {
            tg_id: i,
            short_name: format!("short_name{i}"),
            deleted: false,
            title: format!("title{i}"),
        });
    }

    let message = current_page_message(1, 1, 50, &list);

    assert_eq!(
        message.as_str(),
        "List of your stickers (1 page):\n\
        <a href=\"t.me/addstickers/short_name0\">title0</a> \
        | <a href=\"t.me/addstickers/short_name1\">title1</a> \
        | <a href=\"t.me/addstickers/short_name2\">title2</a> \
        | <a href=\"t.me/addstickers/short_name3\">title3</a> \
        | <a href=\"t.me/addstickers/short_name4\">title4</a> \
        | "
    );
}

#[test]
fn texts_current_page_message_test() {
    let mut list = Vec::new();
    for i in 0..5 {
        list.push(StickerSet {
            tg_id: i,
            short_name: format!("short_name{i}"),
            deleted: false,
            title: format!("title{i}"),
        });
    }

    let message = current_page_message(1, 1, 50, &list);

    assert_eq!(
        message.as_str(),
        "List of your stickers (1 page):\n\
        <a href=\"t.me/addstickers/short_name0\">title0</a> \
        | <a href=\"t.me/addstickers/short_name1\">title1</a> \
        | <a href=\"t.me/addstickers/short_name2\">title2</a> \
        | <a href=\"t.me/addstickers/short_name3\">title3</a> \
        | <a href=\"t.me/addstickers/short_name4\">title4</a> \
        | "
    );
}

#[test]
fn current_page_message_second_page() {
    let mut list = Vec::new();
    for i in 0..3 {
        list.push(StickerSet {
            tg_id: i,
            short_name: format!("s{i}"),
            deleted: false,
            title: format!("t{i}"),
        });
    }

    let message = current_page_message(2, 2, 2, &list);

    assert_eq!(
        message.as_str(),
        "List of your stickers (2 page):\n<a href=\"t.me/addstickers/s2\">t2</a> | "
    );
}

#[test]
fn html_helpers_exact() {
    assert_eq!(html_code("name_by_bot").as_str(), "<code>name_by_bot</code>");
    assert_eq!(html_bold("Personal statistics").as_str(), "<b>Personal statistics</b>");
    assert_eq!(
        html_text_link("title", "t.me/addstickers/x").as_str(),
        "<a href=\"t.me/addstickers/x\">title</a>"
    );
}

#[test]
fn html_quote_escapes_markup() {
    assert_eq!(html_quote("a<b>&c").as_str(), "a&lt;b&gt;&amp;c");
    assert_eq!(html_quote("plain title").as_str(), "plain title");
    assert_eq!(html_quote("").as_str(), "");
}

#[test]
fn start_message_greets_by_name() {
    let message = start_message("Alice");
    assert!(message.starts_with("\n    Hello, Alice! This is bot to steal stickers!"));
    assert!(message.contains("/stealpack - Steal sticker pack"));
    assert!(message.contains("/cancel - Cancel last command"));
}

#[test]
fn sticker_set_message_links_and_names() {
    let message = sticker_set_message("My <Title>", "pack_by_bot", "t.me/addstickers/pack_by_bot");
    assert!(message.contains(
        "<a href=\"t.me/addstickers/pack_by_bot\">My &lt;Title&gt;</a>"
    ));
    assert!(message.contains("<code>pack_by_bot</code>"));
}

#[test]
fn personal_stats_message_counts() {
    let message = personal_stats_message(PersonalStats::new(7, 5));
    assert!(message.contains("<b>Personal statistics</b>"));
    assert!(message.contains("The current number of stolen stickers: <code>5</code>"));
    assert!(message.contains("including <code>2</code> deleted ones): <code>7</code>"));
}

#[test]
fn global_stats_message_counts() {
    let message = global_stats_message(GlobalStats::new(240, 3, 2, 1, 1));
    assert!(message.contains("<b>Global statistics</b>"));
    assert!(message.contains("Total sticker packs stolen: <code>240</code>"));
    assert!(message.contains("more than <code>25</code>: <code>3</code>"));
    assert!(message.contains("than <code>50</code>: <code>2</code>"));
    assert!(message.contains("than <code>75</code>: <code>1</code>"));
    assert!(message.contains("than <code>100</code>: <code>1</code>"));
}

#[test]
fn default_error_message_text() {
    assert_eq!(
        default_error_message(),
        "Sorry, an error occurred while processing your request"
    );
}
