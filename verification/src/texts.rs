//! The user-facing message texts, built from verified pieces.
//!
//! The link, code and bold helpers write the HTML the external service
//! renders; titles pass through [`html_escape`] so user text cannot break
//! out of its markup.

use vstd::prelude::*;

use crate::entities::SetModel;
use crate::entities::StickerSet;
use crate::model::rows_view;
use crate::naming::set_link;
use crate::numbers::dec_digits;
use crate::numbers::dec_int;
use crate::numbers::i64_to_dec;
use crate::numbers::u64_to_dec;
use crate::pagination::get_page_begin_and_end;
use crate::pagination::page_begin;
use crate::pagination::page_end;
use crate::stats::GlobalStats;
use crate::stats::GreaterThan;
use crate::stats::PersonalStats;

use vstd::string::StrSliceExecFns;
use vstd::string::StringExecFns;

verus! {

/// One character under HTML escaping: the three markup characters become
/// entities, everything else stays itself.
pub open spec fn escape_char(c: char) -> Seq<char> {
    if c == '&' {
        "&amp;"@
    } else if c == '<' {
        "&lt;"@
    } else if c == '>' {
        "&gt;"@
    } else {
        seq![c]
    }
}

/// Text under HTML escaping, character by character.
pub open spec fn html_escape(s: Seq<char>) -> Seq<char>
    decreases s.len(),
{
    if s.len() == 0 {
        Seq::empty()
    } else {
        html_escape(s.drop_last()) + escape_char(s.last())
    }
}

/// `text` wrapped as an HTML link to `url`.
pub open spec fn link_of(text: Seq<char>, url: Seq<char>) -> Seq<char> {
    "<a href=\""@ + url + "\">"@ + text + "</a>"@
}

/// `s` wrapped as inline HTML code.
pub open spec fn code_of(s: Seq<char>) -> Seq<char> {
    "<code>"@ + s + "</code>"@
}

/// `s` wrapped bold.
pub open spec fn bold_of(s: Seq<char>) -> Seq<char> {
    "<b>"@ + s + "</b>"@
}

/// Escapes the three HTML markup characters of user-supplied text.
pub fn html_quote(s: &str) -> (r: String)
    ensures
        r@ == html_escape(s@),
{
    let n = s.unicode_len();
    let mut out = String::new();
    let mut i: usize = 0;
    while i < n
        invariant
            i <= n,
            n == s@.len(),
            out@ == html_escape(s@.take(i as int)),
        decreases n - i,
    {
        let c = s.get_char(i);
        proof {
            assert(s@.take(i + 1 as int).drop_last() =~= s@.take(i as int));
            assert(s@.take(i + 1 as int).last() == s@[i as int]);
        }
        if c == '&' {
            out.append("&amp;");
        } else if c == '<' {
            out.append("&lt;");
        } else if c == '>' {
            out.append("&gt;");
        } else {
            let piece = s.substring_char(i, i + 1);
            proof {
                assert(piece@ =~= seq![s@[i as int]]);
            }
            out.append(piece);
        }
        i += 1;
    }
    proof {
        assert(s@.take(n as int) =~= s@);
    }
    out
}

/// Wraps text as a link.
pub fn html_text_link(text: &str, url: &str) -> (r: String)
    ensures
        r@ == link_of(text@, url@),
{
    let mut out = String::from_str("<a href=\"");
    out.append(url);
    out.append("\">");
    out.append(text);
    out.append("</a>");
    proof {
        assert(out@ =~= link_of(text@, url@));
    }
    out
}

/// Wraps text as inline code.
pub fn html_code(s: &str) -> (r: String)
    ensures
        r@ == code_of(s@),
{
    let mut out = String::from_str("<code>");
    out.append(s);
    out.append("</code>");
    proof {
        assert(out@ =~= code_of(s@));
    }
    out
}

/// Wraps text bold.
pub fn html_bold(s: &str) -> (r: String)
    ensures
        r@ == bold_of(s@),
{
    let mut out = String::from_str("<b>");
    out.append(s);
    out.append("</b>");
    proof {
        assert(out@ =~= bold_of(s@));
    }
    out
}

/// The greeting with the command list.
pub open spec fn start_message_of(username: Seq<char>) -> Seq<char> {
    "\n    Hello, "@ + username
        + "! This is bot to steal stickers!\nList of commands you can use:\n\n/stealpack - Steal sticker pack\n/addstickers - Add sticker to a sticker pack stolen by this bot\n/mystickers - List of your stolen stickers\n/stats - See the bot statistics\n\n/help - Show this message\n/cancel - Cancel last command\n/source or /src - Show source code of the bot\n"@
}

/// Greets a user by name and lists the commands.
pub fn start_message(username: &str) -> (r: String)
    ensures
        r@ == start_message_of(username@),
{
    let mut out = String::from_str("\n    Hello, ");
    out.append(username);
    out.append(
        "! This is bot to steal stickers!\nList of commands you can use:\n\n/stealpack - Steal sticker pack\n/addstickers - Add sticker to a sticker pack stolen by this bot\n/mystickers - List of your stolen stickers\n/stats - See the bot statistics\n\n/help - Show this message\n/cancel - Cancel last command\n/source or /src - Show source code of the bot\n",
    );
    proof {
        assert(out@ =~= start_message_of(username@));
    }
    out
}

/// The message after a collection was cloned: the link to the new
/// collection, and its internal name as code.
pub open spec fn sticker_set_message_of(
    title: Seq<char>,
    name: Seq<char>,
    link: Seq<char>,
) -> Seq<char> {
    "Now you have your own sticker pack "@ + link_of(html_escape(title), link)
        + ". If you want, you can add any sticker(s) to this pack using command /addstickers. Also you can manage your new sticker pack, using official Telegram bot @Stickers, and to do it, you should use this internal name of your sticker pack: "@
        + code_of(name)
}

/// Announces the cloned collection.
pub fn sticker_set_message(
    sticker_set_title: &str,
    sticker_set_name: &str,
    sticker_set_link: &str,
) -> (r: String)
    ensures
        r@ == sticker_set_message_of(sticker_set_title@, sticker_set_name@, sticker_set_link@),
{
    let mut out = String::from_str("Now you have your own sticker pack ");
    let quoted = html_quote(sticker_set_title);
    let url = html_text_link(quoted.as_str(), sticker_set_link);
    out.append(url.as_str());
    out.append(
        ". If you want, you can add any sticker(s) to this pack using command /addstickers. Also you can manage your new sticker pack, using official Telegram bot @Stickers, and to do it, you should use this internal name of your sticker pack: ",
    );
    let code = html_code(sticker_set_name);
    out.append(code.as_str());
    proof {
        assert(out@ =~= sticker_set_message_of(
            sticker_set_title@,
            sticker_set_name@,
            sticker_set_link@,
        ));
    }
    out
}

/// One collection entry of a page: the link, then a separator.
pub open spec fn page_entry_of(s: SetModel) -> Seq<char> {
    link_of(html_escape(s.title), set_link(s.short_name)) + " | "@
}

/// The entries of a page, in order.
pub open spec fn page_entries_of(rows: Seq<SetModel>) -> Seq<char>
    decreases rows.len(),
{
    if rows.len() == 0 {
        Seq::empty()
    } else {
        page_entries_of(rows.drop_last()) + page_entry_of(rows.last())
    }
}

/// The heading and entries of one page.
pub open spec fn page_message_of(page: int, rows: Seq<SetModel>) -> Seq<char> {
    "List of your stickers ("@ + dec_digits(page as nat) + " page):\n"@ + page_entries_of(rows)
}

/// One page of a user's collection list: a heading with the page number,
/// then a link per collection on the page.
pub fn current_page_message(
    current_page: usize,
    pages_number: u32,
    sets_number_per_page: usize,
    list: &Vec<StickerSet>,
) -> (r: String)
    requires
        current_page >= 1,
        sets_number_per_page >= 1,
    ensures
        r@ == page_message_of(
            current_page as int,
            rows_view(list@).subrange(
                page_begin(current_page as int, list@.len() as int, sets_number_per_page as int),
                page_end(current_page as int, list@.len() as int, sets_number_per_page as int),
            ),
        ),
{
    let (begin, end) = get_page_begin_and_end(
        current_page,
        pages_number,
        list.len(),
        sets_number_per_page,
    );
    let mut out = String::from_str("List of your stickers (");
    let digits = u64_to_dec(current_page as u64);
    out.append(digits.as_str());
    out.append(" page):\n");
    let ghost rows = rows_view(list@).subrange(begin as int, end as int);
    let mut i: usize = begin;
    while i < end
        invariant
            begin <= i <= end,
            end <= list@.len(),
            rows == rows_view(list@).subrange(begin as int, end as int),
            out@ == "List of your stickers ("@ + dec_digits(current_page as nat) + " page):\n"@
                + page_entries_of(rows.take(i - begin)),
        decreases end - i,
    {
        proof {
            assert(rows.take(i + 1 - begin).drop_last() =~= rows.take(i - begin));
            assert(rows.take(i + 1 - begin).last() == rows_view(list@)[i as int]);
        }
        let quoted = html_quote(list[i].title.as_str());
        let link = crate::naming::make_set_link(list[i].short_name.as_str());
        let entry = html_text_link(quoted.as_str(), link.as_str());
        out.append(entry.as_str());
        out.append(" | ");
        i += 1;
    }
    proof {
        assert(rows.take(end - begin) =~= rows);
    }
    out
}

/// One user's statistics message.
pub open spec fn personal_stats_message_of(stats: PersonalStats) -> Seq<char> {
    "\n    "@ + bold_of("Personal statistics"@)
        + "\n\nThe current number of stolen stickers: "@ + code_of(
        dec_int(stats.not_deleted_user_sets_count as int),
    ) + "\nTotal number of stolen sticker packs (including "@ + code_of(
        dec_int(stats.total_user_sets_count - stats.not_deleted_user_sets_count),
    ) + " deleted ones): "@ + code_of(dec_int(stats.total_user_sets_count as int)) + "\n"@
}

/// Renders one user's statistics.
pub fn personal_stats_message(personal_stats: PersonalStats) -> (r: String)
    requires
        0 <= personal_stats.not_deleted_user_sets_count <= personal_stats.total_user_sets_count,
    ensures
        r@ == personal_stats_message_of(personal_stats),
{
    let mut out = String::from_str("\n    ");
    let heading = html_bold("Personal statistics");
    out.append(heading.as_str());
    out.append("\n\nThe current number of stolen stickers: ");
    let current = i64_to_dec(personal_stats.not_deleted_user_sets_count);
    let current_code = html_code(current.as_str());
    out.append(current_code.as_str());
    out.append("\nTotal number of stolen sticker packs (including ");
    let deleted = i64_to_dec(
        personal_stats.total_user_sets_count - personal_stats.not_deleted_user_sets_count,
    );
    let deleted_code = html_code(deleted.as_str());
    out.append(deleted_code.as_str());
    out.append(" deleted ones): ");
    let total = i64_to_dec(personal_stats.total_user_sets_count);
    let total_code = html_code(total.as_str());
    out.append(total_code.as_str());
    out.append("\n");
    proof {
        assert(out@ =~= personal_stats_message_of(personal_stats));
    }
    out
}

/// The global statistics message.
pub open spec fn global_stats_message_of(stats: GlobalStats) -> Seq<char> {
    "\n    "@ + bold_of("Global statistics"@) + "\n\nTotal sticker packs stolen: "@ + code_of(
        dec_int(stats.total_stolen as int),
    ) + "\nUsers who have stolen more than "@ + code_of("25"@) + ": "@ + code_of(
        dec_digits(stats.first_count as nat),
    ) + "\nthan "@ + code_of("50"@) + ": "@ + code_of(dec_digits(stats.second_count as nat))
        + "\nthan "@ + code_of("75"@) + ": "@ + code_of(dec_digits(stats.third_count as nat))
        + "\nthan "@ + code_of("100"@) + ": "@ + code_of(dec_digits(stats.fourth_count as nat))
        + "\n"@
}

/// Renders the global statistics.
pub fn global_stats_message(global_stats: GlobalStats) -> (r: String)
    ensures
        r@ == global_stats_message_of(global_stats),
{
    let mut out = String::from_str("\n    ");
    let heading = html_bold("Global statistics");
    out.append(heading.as_str());
    out.append("\n\nTotal sticker packs stolen: ");
    let total = i64_to_dec(global_stats.total_stolen);
    let total_code = html_code(total.as_str());
    out.append(total_code.as_str());
    out.append("\nUsers who have stolen more than ");
    let first_level = html_code(GreaterThan::FirstLevel.as_str());
    out.append(first_level.as_str());
    out.append(": ");
    let first = u64_to_dec(global_stats.first_count as u64);
    let first_code = html_code(first.as_str());
    out.append(first_code.as_str());
    out.append("\nthan ");
    let second_level = html_code(GreaterThan::SecondLevel.as_str());
    out.append(second_level.as_str());
    out.append(": ");
    let second = u64_to_dec(global_stats.second_count as u64);
    let second_code = html_code(second.as_str());
    out.append(second_code.as_str());
    out.append("\nthan ");
    let third_level = html_code(GreaterThan::ThirdLevel.as_str());
    out.append(third_level.as_str());
    out.append(": ");
    let third = u64_to_dec(global_stats.third_count as u64);
    let third_code = html_code(third.as_str());
    out.append(third_code.as_str());
    out.append("\nthan ");
    let fourth_level = html_code(GreaterThan::FourthLevel.as_str());
    out.append(fourth_level.as_str());
    out.append(": ");
    let fourth = u64_to_dec(global_stats.fourth_count as u64);
    let fourth_code = html_code(fourth.as_str());
    out.append(fourth_code.as_str());
    out.append("\n");
    proof {
        assert(out@ =~= global_stats_message_of(global_stats));
    }
    out
}

/// The fallback error message.
pub fn default_error_message() -> (r: &'static str)
    ensures
        r@ == "Sorry, an error occurred while processing your request"@,
{
    "Sorry, an error occurred while processing your request"
}

} // verus!
