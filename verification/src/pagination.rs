//! Pagination of a user's collection list: which slice one page shows, how
//! many pages there are, and the inline page buttons.

use vstd::prelude::*;

use crate::numbers::all_digits;
use crate::numbers::dec_digits;
use crate::numbers::digits_value;
use crate::numbers::parse_usize;
use crate::numbers::u64_to_dec;

use vstd::string::StrSliceExecFns;
use vstd::string::StringExecFns;

verus! {

/// Index of the first record one page shows.
pub open spec fn page_begin(page: int, len: int, per: int) -> int {
    if (page - 1) * per > len {
        len
    } else {
        (page - 1) * per
    }
}

/// Index past the last record one page shows.
pub open spec fn page_end(page: int, len: int, per: int) -> int {
    if page_begin(page, len, per) + per > len {
        len
    } else {
        page_begin(page, len, per) + per
    }
}

/// The slice of the record list one page shows, as a pair of indices.
pub fn get_page_begin_and_end(
    current_page: usize,
    pages_number: u32,
    list_len: usize,
    sets_number_per_page: usize,
) -> (r: (usize, usize))
    requires
        current_page >= 1,
        sets_number_per_page >= 1,
    ensures
        r.0 as int == page_begin(current_page as int, list_len as int, sets_number_per_page as int),
        r.1 as int == page_end(current_page as int, list_len as int, sets_number_per_page as int),
        r.0 <= r.1 <= list_len,
{
    let _ = pages_number;
    let page_index = current_page - 1;
    let begin: usize = if page_index <= list_len / sets_number_per_page {
        proof {
            assert(page_index * sets_number_per_page <= list_len) by (nonlinear_arith)
                requires
                    page_index as int <= list_len as int / sets_number_per_page as int,
                    sets_number_per_page as int >= 1,
                    list_len as int >= 0,
                    page_index as int >= 0,
            {
            }
        }
        let b = page_index * sets_number_per_page;
        if b > list_len {
            list_len
        } else {
            b
        }
    } else {
        proof {
            assert(page_index * sets_number_per_page > list_len) by (nonlinear_arith)
                requires
                    page_index as int > list_len as int / sets_number_per_page as int,
                    sets_number_per_page as int >= 1,
                    list_len as int >= 0,
                    page_index as int >= 0,
            {
            }
        }
        list_len
    };
    let end: usize = if sets_number_per_page > list_len - begin {
        list_len
    } else {
        begin + sets_number_per_page
    };
    (begin, end)
}

/// How many pages a list of this length fills.
pub fn page_count(list_len: usize, sets_number_per_page: usize) -> (r: usize)
    requires
        sets_number_per_page >= 1,
    ensures
        r as int == list_len as int / sets_number_per_page as int + if list_len as int
            % sets_number_per_page as int != 0 {
            1int
        } else {
            0int
        },
{
    let d = list_len / sets_number_per_page;
    let m = list_len % sets_number_per_page;
    if m != 0 {
        proof {
            assert(sets_number_per_page != 1);
            assert(list_len != 0) by (nonlinear_arith)
                requires
                    list_len as int % sets_number_per_page as int != 0,
                    sets_number_per_page as int >= 1,
                    list_len as int >= 0,
            {
            }
            assert(d < list_len) by (nonlinear_arith)
                requires
                    d == list_len as int / sets_number_per_page as int,
                    sets_number_per_page as int >= 2,
                    list_len as int >= 1,
            {
            }
        }
        d + 1
    } else {
        d
    }
}

/// One inline page button.
pub struct PageButton {
    pub label: String,
    pub callback_data: String,
}

/// How many button rows a page count fills, five buttons to a row.
pub open spec fn rows_needed(pages: int) -> int {
    pages / 5 + if pages % 5 != 0 {
        1int
    } else {
        0int
    }
}

/// The page buttons, five to a row: button `p` is labelled `Page p` and
/// carries `MyStickers` and the page number as callback data.
pub fn my_stickers_buttons(pages: usize) -> (r: Vec<Vec<PageButton>>)
    requires
        1 <= pages <= 0xffff,
    ensures
        r@.len() == rows_needed(pages as int),
        forall|row: int|
            0 <= row < r@.len() ==> (#[trigger] r@[row])@.len() == (if (row + 1) * 5
                <= pages as int {
                5int
            } else {
                pages as int - row * 5
            }),
        forall|row: int, j: int|
            0 <= row < r@.len() && 0 <= j < r@[row]@.len() ==> {
                let p = (row * 5 + j + 1) as nat;
                &&& (#[trigger] r@[row]@[j]).label@ == "Page "@ + dec_digits(p)
                &&& r@[row]@[j].callback_data@ == "MyStickers"@ + dec_digits(p)
            },
{
    let nrows = page_count(pages, 5);
    let mut out: Vec<Vec<PageButton>> = Vec::new();
    let mut row: usize = 0;
    while row < nrows
        invariant
            row <= nrows,
            1 <= pages <= 0xffff,
            nrows as int == rows_needed(pages as int),
            out@.len() == row as int,
            forall|k: int|
                0 <= k < row ==> (#[trigger] out@[k])@.len() == (if (k + 1) * 5 <= pages as int {
                    5int
                } else {
                    pages as int - k * 5
                }),
            forall|k: int, j: int|
                0 <= k < row && 0 <= j < out@[k]@.len() ==> {
                    let p = (k * 5 + j + 1) as nat;
                    &&& (#[trigger] out@[k]@[j]).label@ == "Page "@ + dec_digits(p)
                    &&& out@[k]@[j].callback_data@ == "MyStickers"@ + dec_digits(p)
                },
        decreases nrows - row,
    {
        let in_row: usize = if (row + 1) * 5 <= pages {
            5
        } else {
            proof {
                assert(pages as int - row as int * 5 >= 1);
            }
            pages - row * 5
        };
        let mut row_vec: Vec<PageButton> = Vec::new();
        let mut j: usize = 0;
        while j < in_row
            invariant
                j <= in_row,
                1 <= pages <= 0xffff,
                row as int * 5 + in_row as int <= pages as int,
                in_row <= 5,
                row_vec@.len() == j as int,
                forall|q: int|
                    0 <= q < j ==> {
                        let p = (row as int * 5 + q + 1) as nat;
                        &&& (#[trigger] row_vec@[q]).label@ == "Page "@ + dec_digits(p)
                        &&& row_vec@[q].callback_data@ == "MyStickers"@ + dec_digits(p)
                    },
            decreases in_row - j,
        {
            let page_no = row * 5 + j + 1;
            let digits = u64_to_dec(page_no as u64);
            let mut label = String::from_str("Page ");
            label.append(digits.as_str());
            let mut callback_data = String::from_str("MyStickers");
            callback_data.append(digits.as_str());
            row_vec.push(PageButton { label, callback_data });
            j += 1;
        }
        out.push(row_vec);
        row += 1;
    }
    out
}

/// The page number carried by one button's callback data: the payload after
/// the `MyStickers` prefix, parsed as a decimal number.
pub fn parse_page_callback(data: &str) -> (r: Option<usize>)
    ensures
        match r {
            Some(p) => {
                &&& data@.len() > "MyStickers"@.len()
                &&& data@.take("MyStickers"@.len() as int) == "MyStickers"@
                &&& all_digits(data@.skip("MyStickers"@.len() as int))
                &&& p as int == digits_value(data@.skip("MyStickers"@.len() as int))
            },
            None => {
                data@.len() <= "MyStickers"@.len() || data@.take("MyStickers"@.len() as int)
                    != "MyStickers"@ || !all_digits(data@.skip("MyStickers"@.len() as int))
                    || digits_value(data@.skip("MyStickers"@.len() as int)) > usize::MAX as int
            },
        },
{
    let prefix = "MyStickers";
    let plen = prefix.unicode_len();
    let dlen = data.unicode_len();
    if dlen <= plen {
        return None;
    }
    let mut i: usize = 0;
    while i < plen
        invariant
            i <= plen,
            plen == prefix@.len(),
            dlen == data@.len(),
            plen < dlen,
            prefix@ == "MyStickers"@,
            forall|k: int| 0 <= k < i ==> data@[k] == prefix@[k],
        decreases plen - i,
    {
        if data.get_char(i) != prefix.get_char(i) {
            proof {
                assert(data@.take(plen as int)[i as int] != "MyStickers"@[i as int]);
            }
            return None;
        }
        i += 1;
    }
    proof {
        assert(data@.take(plen as int) =~= "MyStickers"@);
    }
    let payload = data.substring_char(plen, dlen);
    proof {
        assert(payload@ =~= data@.skip(plen as int));
    }
    parse_usize(payload)
}

} // verus!
