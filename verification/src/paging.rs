//! Character-budget paging of text and of reference entries.

use vstd::prelude::*;

verus! {

/// A reference entry: the reference and the text shown for it.
#[derive(Clone, Debug, PartialEq)]
pub struct Entry {
    pub ref_id: String,
    pub display: String,
}

/// An entry that can be paged: it has a reference and a display text, and
/// a copy of it can be made with another display text.
pub trait PageableEntry: Sized {
    spec fn ref_view(&self) -> Seq<char>;

    spec fn display_view(&self) -> Seq<char>;

    fn ref_id(&self) -> (r: &str)
        ensures
            r@ == self.ref_view(),
    ;

    fn display(&self) -> (r: &str)
        ensures
            r@ == self.display_view(),
    ;

    fn with_display(&self, display: String) -> (r: Self)
        ensures
            r.ref_view() == self.ref_view(),
            r.display_view() == display@,
    ;
}

impl PageableEntry for Entry {
    open spec fn ref_view(&self) -> Seq<char> {
        self.ref_id@
    }

    open spec fn display_view(&self) -> Seq<char> {
        self.display@
    }

    fn ref_id(&self) -> (r: &str) {
        self.ref_id.as_str()
    }

    fn display(&self) -> (r: &str) {
        self.display.as_str()
    }

    fn with_display(&self, display: String) -> (r: Self) {
        Entry { ref_id: self.ref_id.clone(), display }
    }
}

/// An entry as the model sees it: its reference and its display text.
pub type EntryModel = (Seq<char>, Seq<char>);

pub open spec fn entry_view<T: PageableEntry>(e: T) -> EntryModel {
    (e.ref_view(), e.display_view())
}

pub open spec fn entries_view<T: PageableEntry>(s: Seq<T>) -> Seq<EntryModel> {
    Seq::new(s.len(), |i: int| entry_view(s[i]))
}

/// What an entry costs on a page: the characters of its reference and of
/// its display text.
pub open spec fn cost(e: EntryModel) -> int {
    (e.0.len() + e.1.len()) as int
}

/// The first `n` characters of `s`, or "." where that leaves nothing.
pub open spec fn take_display(s: Seq<char>, n: int) -> Seq<char> {
    let t = if n <= s.len() { s.take(n) } else { s };
    if t.len() == 0 { "."@ } else { t }
}

/// An entry fitted to the limit. An entry that fits stays as it is; a
/// reference that alone reaches the limit keeps "." as display; otherwise
/// the display is cut to what the reference leaves, ending with "..." where
/// there is room for more than the marker.
pub open spec fn fit_spec(e: EntryModel, limit: int) -> EntryModel {
    let r = e.0;
    let d = e.1;
    if r.len() + d.len() <= limit {
        e
    } else if r.len() >= limit {
        (r, "."@)
    } else {
        let budget = limit - r.len();
        if budget > 3 && d.len() > budget {
            (r, d.take(budget - 3) + "..."@)
        } else {
            (r, take_display(d, if budget > 1 { budget } else { 1 }))
        }
    }
}

/// Where a page that starts at `start` ends, from entry `i` on with `used`
/// characters spent: an entry that does not fit ends the page unless it is
/// the first, and reaching the limit ends it after that entry.
pub open spec fn page_end_from(es: Seq<EntryModel>, start: int, i: int, used: int, limit: int) -> int
    decreases es.len() - i,
{
    if i < 0 || i >= es.len() {
        i
    } else {
        let c = cost(fit_spec(es[i], limit));
        if i > start && used + c > limit {
            i
        } else if used + c >= limit {
            i + 1
        } else {
            page_end_from(es, start, i + 1, used + c, limit)
        }
    }
}

pub open spec fn page_end(es: Seq<EntryModel>, start: int, limit: int) -> int {
    page_end_from(es, start, start, 0, limit)
}

/// The fitted entries from `start` to `end`.
pub open spec fn page_entries(es: Seq<EntryModel>, start: int, end: int, limit: int) -> Seq<EntryModel> {
    Seq::new((end - start) as nat, |k: int| fit_spec(es[start + k], limit))
}

/// Where page `p` starts; pages are numbered from 1, and past the last entry
/// every later page starts at the end.
pub open spec fn page_start(es: Seq<EntryModel>, limit: int, p: nat) -> int
    decreases p,
{
    if p <= 1 {
        0
    } else {
        let s = page_start(es, limit, (p - 1) as nat);
        if s < es.len() {
            page_end(es, s, limit)
        } else {
            s
        }
    }
}

/// The number of the page after `current`, when there is more to show and
/// the number fits.
pub open spec fn next_page_spec(current: u32, has_more: bool) -> Option<u32> {
    if has_more && current < u32::MAX {
        Some((current + 1) as u32)
    } else {
        None
    }
}

fn next_page(current: u32, has_more: bool) -> (r: Option<u32>)
    ensures
        r == next_page_spec(current, has_more),
{
    if has_more {
        current.checked_add(1)
    } else {
        None
    }
}

/// The text of page `page` of `content`, `limit` characters per page.
pub open spec fn text_page(content: Seq<char>, page: int, limit: int) -> Seq<char> {
    let start = (page - 1) * limit;
    if start >= content.len() {
        Seq::empty()
    } else {
        let end = if start + limit < content.len() { start + limit } else { content.len() as int };
        content.subrange(start, end)
    }
}

/// Whether a page after `page` has text.
pub open spec fn text_has_more(content: Seq<char>, page: int, limit: int) -> bool {
    page * limit < content.len()
}

/// Page `page` of `content`, `limit_chars` characters per page, and the
/// number of the next page when there is more.
pub fn paginate_text(content: &str, page: u32, limit_chars: u32) -> (r: (String, Option<u32>))
    requires
        page >= 1,
        limit_chars >= 1,
    ensures
        r.0@ == text_page(content@, page as int, limit_chars as int),
        r.1 == next_page_spec(page, text_has_more(content@, page as int, limit_chars as int)),
{
    let total = content.unicode_len();
    let p1: u128 = (page - 1) as u128;
    let lc: u128 = limit_chars as u128;
    assert(p1 * lc <= 0xffff_ffff * 0xffff_ffffu128) by (nonlinear_arith)
        requires
            p1 <= 0xffff_ffff,
            lc <= 0xffff_ffff,
    ;
    let start: u128 = p1 * lc;
    assert(start == (page - 1) * limit_chars) by (nonlinear_arith)
        requires
            start == p1 * lc,
            p1 == page - 1,
            lc == limit_chars,
    ;
    if start >= total as u128 {
        proof {
            assert(page * limit_chars >= total) by (nonlinear_arith)
                requires
                    start == (page - 1) * limit_chars,
                    start >= total,
                    limit_chars >= 1,
            ;
        }
        return (String::new(), None);
    }
    let end: u128 = if start + (limit_chars as u128) < total as u128 { start + (limit_chars as u128) } else { total as u128 };
    let text = content.substring_char(start as usize, end as usize);
    proof {
        assert(page * limit_chars == start + limit_chars) by (nonlinear_arith)
            requires
                start == (page - 1) * limit_chars,
        ;
    }
    (String::from_str(text), next_page(page, end < total as u128))
}

/// The first `count` characters of `value`, or "." where that leaves nothing.
fn take_chars(value: &str, count: usize) -> (r: String)
    ensures
        r@ == take_display(value@, count as int),
{
    let len = value.unicode_len();
    let n = if count <= len { count } else { len };
    if n == 0 {
        String::from_str(".")
    } else {
        String::from_str(value.substring_char(0, n))
    }
}

/// The entry fitted to the limit.
fn fit_entry<T: PageableEntry>(entry: &T, limit: usize) -> (r: T)
    ensures
        entry_view(r) == fit_spec(entry_view(*entry), limit as int),
{
    let ref_len = entry.ref_id().unicode_len();
    let display_len = entry.display().unicode_len();
    if (ref_len as u128) + (display_len as u128) <= limit as u128 {
        return entry.with_display(String::from_str(entry.display()));
    }
    if ref_len >= limit {
        return entry.with_display(String::from_str("."));
    }
    let display_budget = limit - ref_len;
    if display_budget > 3 && display_len > display_budget {
        let mut clipped = take_chars(entry.display(), display_budget - 3);
        clipped.append("...");
        entry.with_display(clipped)
    } else {
        let n = if display_budget > 1 { display_budget } else { 1 };
        entry.with_display(take_chars(entry.display(), n))
    }
}

fn entry_cost<T: PageableEntry>(entry: &T) -> (r: u128)
    ensures
        r == cost(entry_view(*entry)),
        r <= 2 * (usize::MAX as u128),
{
    (entry.ref_id().unicode_len() as u128) + (entry.display().unicode_len() as u128)
}

/// The page that starts at `start`: its fitted entries and where it ends.
fn entries_page<T: PageableEntry>(entries: &[T], start: usize, limit: usize) -> (r: (Vec<T>, usize))
    requires
        start < entries@.len(),
    ensures
        r.1 == page_end(entries_view(entries@), start as int, limit as int),
        entries_view(r.0@) == page_entries(entries_view(entries@), start as int, r.1 as int, limit as int),
{
    let ghost es = entries_view(entries@);
    let ghost end = page_end(es, start as int, limit as int);
    let mut page_entries_out: Vec<T> = Vec::new();
    let mut used: u128 = 0;
    let mut index: usize = start;
    loop
        invariant_except_break
            start <= index <= entries@.len(),
            used <= limit,
            index > start ==> used < limit,
            page_end_from(es, start as int, index as int, used as int, limit as int) == end,
        invariant
            es == entries_view(entries@),
            es.len() == entries@.len(),
            end == page_end(es, start as int, limit as int),
            start <= index <= entries@.len(),
            entries_view(page_entries_out@) == page_entries(es, start as int, index as int, limit as int),
            page_entries_out@.len() == index - start,
        ensures
            index == end,
            entries_view(page_entries_out@) == page_entries(es, start as int, index as int, limit as int),
        decreases entries@.len() - index,
    {
        if index >= entries.len() {
            break;
        }
        let entry = &entries[index];
        let adjusted = fit_entry(entry, limit);
        let c = entry_cost(&adjusted);
        assert(es[index as int] == entry_view(*entry));
        if page_entries_out.len() > 0 && used + c > limit as u128 {
            break;
        }
        used = used + c;
        let ghost before = page_entries_out@;
        let ghost av = entry_view(adjusted);
        page_entries_out.push(adjusted);
        assert(entries_view(page_entries_out@) =~= entries_view(before).push(av));
        assert(entries_view(page_entries_out@) =~= page_entries(es, start as int, index + 1, limit as int));
        index = index + 1;
        if used >= limit as u128 {
            break;
        }
    }
    (page_entries_out, index)
}

/// Once a page starts past the last entry, every later page starts there too.
proof fn lemma_page_start_stays(es: Seq<EntryModel>, limit: int, p: nat, q: nat)
    requires
        1 <= p <= q,
        page_start(es, limit, p) >= es.len(),
    ensures
        page_start(es, limit, q) == page_start(es, limit, p),
    decreases q - p,
{
    if q > p {
        lemma_page_start_stays(es, limit, p, (q - 1) as nat);
    }
}

/// Page `page` of the entries, `limit_chars` characters per page, and the
/// number of the next page when entries remain.
pub fn paginate_entries<T: PageableEntry>(entries: &[T], page: u32, limit_chars: u32) -> (r: (Vec<T>, Option<u32>))
    requires
        page >= 1,
        limit_chars >= 1,
    ensures
        ({
            let es = entries_view(entries@);
            let s = page_start(es, limit_chars as int, page as nat);
            if s >= es.len() {
                r.0@.len() == 0 && r.1 is None
            } else {
                let e = page_end(es, s, limit_chars as int);
                &&& entries_view(r.0@) == page_entries(es, s, e, limit_chars as int)
                &&& r.1 == next_page_spec(page, e < es.len())
            }
        }),
{
    let ghost es = entries_view(entries@);
    let limit = limit_chars as usize;
    let mut index: usize = 0;
    let mut current_page: u32 = 1;
    while current_page < page && index < entries.len()
        invariant
            es == entries_view(entries@),
            limit == limit_chars as usize,
            1 <= current_page <= page,
            index as int == page_start(es, limit as int, current_page as nat),
        decreases page - current_page,
    {
        let (_, next_index) = entries_page(entries, index, limit);
        index = next_index;
        current_page = current_page + 1;
    }
    if index >= entries.len() {
        proof {
            lemma_page_start_stays(es, limit as int, current_page as nat, page as nat);
        }
        return (Vec::new(), None);
    }
    let (page_entries_out, next_index) = entries_page(entries, index, limit);
    (page_entries_out, next_page(page, next_index < entries.len()))
}

/// The total cost of some entries.
pub open spec fn total_cost(s: Seq<EntryModel>) -> int
    decreases s.len(),
{
    if s.len() == 0 {
        0
    } else {
        total_cost(s.drop_last()) + cost(s.last())
    }
}

proof fn lemma_page_end_bounds(es: Seq<EntryModel>, start: int, i: int, used: int, limit: int)
    requires
        0 <= start <= i <= es.len(),
    ensures
        i <= page_end_from(es, start, i, used, limit) <= es.len(),
        i == start && start < es.len() ==> start < page_end_from(es, start, i, used, limit),
    decreases es.len() - i,
{
    if i < es.len() {
        let c = cost(fit_spec(es[i], limit));
        if !(i > start && used + c > limit) && !(used + c >= limit) {
            lemma_page_end_bounds(es, start, i + 1, used + c, limit);
        }
    }
}

/// Each page of entries holds at least one entry, so paging always gets
/// further, also past an entry larger than the limit.
pub proof fn law_page_advances(es: Seq<EntryModel>, start: int, limit: int)
    requires
        0 <= start < es.len(),
    ensures
        start < page_end(es, start, limit) <= es.len(),
{
    lemma_page_end_bounds(es, start, start, 0, limit);
}

/// The next page starts where the current one ended.
pub proof fn law_next_page_starts_at_page_end(es: Seq<EntryModel>, limit: int, p: nat)
    requires
        p >= 1,
        page_start(es, limit, p) < es.len(),
    ensures
        page_start(es, limit, p + 1) == page_end(es, page_start(es, limit, p), limit),
{
}

/// Fitting an entry never changes its reference.
pub proof fn law_fit_keeps_reference(e: EntryModel, limit: int)
    ensures
        fit_spec(e, limit).0 == e.0,
{
}

/// An entry whose reference is shorter than the limit is fitted within the
/// limit, and a display that fitting changed is never empty; a reference
/// that reaches the limit keeps the display ".".
pub proof fn law_fit_within_limit(e: EntryModel, limit: int)
    ensures
        e.0.len() < limit ==> cost(fit_spec(e, limit)) <= limit,
        fit_spec(e, limit) != e ==> fit_spec(e, limit).1.len() > 0,
        e.0.len() >= limit && cost(e) > limit ==> fit_spec(e, limit).1 == "."@,
{
    reveal_strlit(".");
    reveal_strlit("...");
}

/// A display cut for lack of room ends with the marker "..." when there is
/// room for more than the marker.
pub proof fn law_cut_display_ends_with_marker(e: EntryModel, limit: int)
    requires
        e.0.len() < limit,
        limit - e.0.len() > 3,
        e.1.len() > limit - e.0.len(),
    ensures
        fit_spec(e, limit).1 == e.1.take(limit - e.0.len() - 3) + "..."@,
{
}

proof fn lemma_page_cost(es: Seq<EntryModel>, start: int, i: int, used: int, limit: int)
    requires
        0 <= start <= i <= es.len(),
        used == total_cost(page_entries(es, start, i, limit)),
        used <= limit,
    ensures
        ({
            let e = page_end_from(es, start, i, used, limit);
            total_cost(page_entries(es, start, e, limit)) <= limit || e == start + 1
        }),
    decreases es.len() - i,
{
    if i < es.len() {
        let c = cost(fit_spec(es[i], limit));
        let next = page_entries(es, start, i + 1, limit);
        assert(next.drop_last() =~= page_entries(es, start, i, limit));
        if i > start && used + c > limit {
        } else if used + c >= limit {
        } else {
            lemma_page_cost(es, start, i + 1, used + c, limit);
        }
    }
}

/// A page stays within the limit, except a page of one entry that alone
/// goes past it.
pub proof fn law_page_within_limit(es: Seq<EntryModel>, start: int, limit: int)
    requires
        0 <= start < es.len(),
        limit >= 0,
    ensures
        ({
            let e = page_end(es, start, limit);
            total_cost(page_entries(es, start, e, limit)) <= limit || e == start + 1
        }),
{
    assert(page_entries(es, start, start, limit) =~= Seq::<EntryModel>::empty());
    lemma_page_cost(es, start, start, 0, limit);
}

/// Two pages of text in a row are the text from where the first starts,
/// for as far as both reach.
pub proof fn law_text_pages_continue(content: Seq<char>, page: int, limit: int)
    requires
        page >= 1,
        limit >= 1,
    ensures
        ({
            let start = (page - 1) * limit;
            let end = if start + 2 * limit < content.len() { start + 2 * limit } else { content.len() as int };
            start < content.len() ==> text_page(content, page, limit) + text_page(content, page + 1, limit)
                == content.subrange(start, end)
        }),
{
    let start = (page - 1) * limit;
    assert(page * limit == start + limit) by (nonlinear_arith)
        requires
            start == (page - 1) * limit,
    ;
    assert(((page + 1) - 1) * limit == start + limit) by (nonlinear_arith)
        requires
            start == (page - 1) * limit,
    ;
    let end = if start + 2 * limit < content.len() { start + 2 * limit } else { content.len() as int };
    if start < content.len() {
        assert(text_page(content, page, limit) + text_page(content, page + 1, limit) =~= content.subrange(start, end));
    }
}

/// A next page of text is reported exactly when it has text.
pub proof fn law_text_next_page_has_text(content: Seq<char>, page: int, limit: int)
    requires
        page >= 1,
        limit >= 1,
    ensures
        text_has_more(content, page, limit) <==> text_page(content, page + 1, limit).len() > 0,
{
    assert(((page + 1) - 1) * limit == page * limit);
}

proof fn lemma_page_full(es: Seq<EntryModel>, start: int, i: int, used: int, limit: int)
    requires
        0 <= start <= i <= es.len(),
        used == total_cost(page_entries(es, start, i, limit)),
    ensures
        ({
            let e = page_end_from(es, start, i, used, limit);
            let full = total_cost(page_entries(es, start, e, limit));
            e < es.len() ==> full + cost(fit_spec(es[e], limit)) > limit || full >= limit
        }),
    decreases es.len() - i,
{
    if i < es.len() {
        let c = cost(fit_spec(es[i], limit));
        let next = page_entries(es, start, i + 1, limit);
        assert(next.drop_last() =~= page_entries(es, start, i, limit));
        if i > start && used + c > limit {
        } else if used + c >= limit {
        } else {
            lemma_page_full(es, start, i + 1, used + c, limit);
        }
    }
}

/// A page takes as many entries as fit: when entries are left after it, the
/// next one would take the page past the limit, or the page already
/// reaches the limit.
pub proof fn law_page_is_full(es: Seq<EntryModel>, start: int, limit: int)
    requires
        0 <= start < es.len(),
    ensures
        ({
            let e = page_end(es, start, limit);
            let full = total_cost(page_entries(es, start, e, limit));
            e < es.len() ==> full + cost(fit_spec(es[e], limit)) > limit || full >= limit
        }),
{
    assert(page_entries(es, start, start, limit) =~= Seq::<EntryModel>::empty());
    lemma_page_full(es, start, start, 0, limit);
}

} // verus!
