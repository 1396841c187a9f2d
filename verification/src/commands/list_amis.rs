//! `list-amis`: the machine images, newest first.
use vstd::prelude::*;
use vstd::string::*;
use crate::dates::{
    date_before, format_date, is_before, parse_date, parsed_date, rfc3339_millis, CreationDate,
};
use crate::ec2_wrapper::{describe_images_exchange, Ec2Wrapper, Exchange, Reply, Request, Session};
use crate::error::{error_of_fault, AwsInstanceError};
use crate::model::{DescribeImagesRequest, Filter, Image};
use crate::search::{regex_compiles, regex_matches, SearchPattern};
use crate::text::{
    clip, clipped, copy_texts, opt_text, pad, padded, push_line, str_eq, texts,
};

verus! {

/// What is listed of an image.
#[derive(Debug)]
pub struct AmiInfo {
    pub ami_id: Option<String>,
    pub state: Option<String>,
    pub creation_date: Option<CreationDate>,
    pub name: Option<String>,
    pub description: Option<String>,
}

/// The creation date of an image as a moment: `Some(None)` for an image
/// without a date, `None` for a date that cannot be read.
pub open spec fn date_of(image: Image) -> Option<Option<CreationDate>> {
    match image.creation_date {
        None => Some(None),
        Some(text) => match parsed_date(text@) {
            Some((seconds, nanos)) => Some(Some(CreationDate { seconds, nanos })),
            None => None,
        },
    }
}

/// What is listed of an image: its fields as they are, and its date read;
/// `None` for an image whose date cannot be read.
pub open spec fn ami_of(image: Image) -> Option<AmiInfo> {
    match date_of(image) {
        Some(creation_date) => Some(
            AmiInfo {
                ami_id: image.image_id,
                state: image.state,
                creation_date,
                name: image.name,
                description: image.description,
            },
        ),
        None => None,
    }
}

/// A text that may be missing: the text, or nothing.
pub open spec fn text_or_empty(option: Option<String>) -> Seq<char> {
    match option {
        Some(s) => s@,
        None => Seq::empty(),
    }
}

/// Writes a text that may be missing.
pub fn print_option(option: &Option<String>) -> (r: String)
    ensures
        r@ == text_or_empty(*option),
{
    match option {
        Some(string) => string.clone(),
        None => String::new(),
    }
}

/// A line of the image table: id and state in 15 characters each, the date
/// in 25, then name and description, each cut to 48 characters and set in
/// 50; a space between each two.
pub open spec fn image_cells(
    id: Seq<char>,
    state: Seq<char>,
    date: Seq<char>,
    name: Seq<char>,
    description: Seq<char>,
) -> Seq<char> {
    padded(id, 15) + " "@ + padded(state, 15) + " "@ + padded(date, 25) + " "@ + padded(
        clipped(name, 48),
        50,
    ) + " "@ + padded(clipped(description, 48), 50)
}

fn cells(id: &str, state: &str, date: &str, name: &str, description: &str) -> (r: String)
    ensures
        r@ == image_cells(id@, state@, date@, name@, description@),
{
    let mut r = pad(id, 15);
    r.append(" ");
    r.append(pad(state, 15).as_str());
    r.append(" ");
    r.append(pad(date, 25).as_str());
    r.append(" ");
    r.append(pad(clip(name, 48), 50).as_str());
    r.append(" ");
    r.append(pad(clip(description, 48), 50).as_str());
    r
}

/// The heading of the image table.
pub open spec fn image_heading() -> Seq<char> {
    image_cells("AMI ID"@, "State"@, "Creation Date"@, "Name"@, "Description"@)
}

/// The date column: the date in RFC 3339 with milliseconds, or nothing
/// where there is none to write.
pub open spec fn date_text(date: Option<CreationDate>) -> Seq<char> {
    match date {
        Some(moment) => match rfc3339_millis(moment.seconds as int, moment.nanos as int) {
            Some(text) => text,
            None => Seq::empty(),
        },
        None => Seq::empty(),
    }
}

/// The line of an image as it came from the provider, its date unread.
pub open spec fn image_row(image: Image) -> Seq<char> {
    image_cells(
        text_or_empty(image.image_id),
        text_or_empty(image.state),
        text_or_empty(image.creation_date),
        text_or_empty(image.name),
        text_or_empty(image.description),
    )
}

/// Writes the line of an image as it came from the provider.
pub fn print_image(image: &Image) -> (r: String)
    ensures
        r@ == image_row(*image),
{
    let id = print_option(&image.image_id);
    let state = print_option(&image.state);
    let date = print_option(&image.creation_date);
    let name = print_option(&image.name);
    let description = print_option(&image.description);
    cells(id.as_str(), state.as_str(), date.as_str(), name.as_str(), description.as_str())
}

impl AmiInfo {
    /// Reads what is listed of an image. A creation date that cannot be
    /// read is an error.
    pub fn from_aws(image: Image) -> (r: Result<AmiInfo, AwsInstanceError>)
        ensures
            match ami_of(image) {
                Some(info) => r == Ok::<AmiInfo, AwsInstanceError>(info),
                None => r matches Err(error) && error is DateParseError,
            },
    {
        let creation_date = match &image.creation_date {
            None => None,
            Some(text) => match parse_date(text.as_str()) {
                Ok(date) => Some(date),
                Err(error) => {
                    return Err(AwsInstanceError::DateParseError { error });
                },
            },
        };
        Ok(
            AmiInfo {
                ami_id: image.image_id,
                state: image.state,
                creation_date,
                name: image.name,
                description: image.description,
            },
        )
    }

    /// The line of the image in the table.
    pub open spec fn row(&self) -> Seq<char> {
        image_cells(
            text_or_empty(self.ami_id),
            text_or_empty(self.state),
            date_text(self.creation_date),
            text_or_empty(self.name),
            text_or_empty(self.description),
        )
    }

    /// Writes the line of the image.
    pub fn print(&self) -> (r: String)
        ensures
            r@ == self.row(),
    {
        let id = print_option(&self.ami_id);
        let state = print_option(&self.state);
        let written = match self.creation_date {
            Some(moment) => format_date(moment),
            None => None,
        };
        let date = print_option(&written);
        let name = print_option(&self.name);
        let description = print_option(&self.description);
        cells(id.as_str(), state.as_str(), date.as_str(), name.as_str(), description.as_str())
    }
}

/// `x` set into a list that is ordered newest first: before the first entry
/// that is older than `x`, so behind every entry of its own date.
pub open spec fn placed(list: Seq<AmiInfo>, x: AmiInfo) -> Seq<AmiInfo>
    decreases list.len(),
{
    if list.len() == 0 {
        seq![x]
    } else if date_before(list.last().creation_date, x.creation_date) {
        placed(list.drop_last(), x).push(list.last())
    } else {
        list.push(x)
    }
}

/// The list ordered by creation date, newest first. Entries of one date
/// keep the order they came in; entries without a date come last.
pub open spec fn newest_first(list: Seq<AmiInfo>) -> Seq<AmiInfo>
    decreases list.len(),
{
    if list.len() == 0 {
        Seq::empty()
    } else {
        placed(newest_first(list.drop_last()), list.last())
    }
}

/// Setting `x` at `at` is what `placed` does, where every entry from `at` on
/// is older than `x` and the one before `at` is not.
pub proof fn lemma_placed_at(list: Seq<AmiInfo>, x: AmiInfo, at: int)
    requires
        0 <= at <= list.len(),
        forall|k: int| at <= k < list.len() ==> date_before(list[k].creation_date, x.creation_date),
        at > 0 ==> !date_before(list[at - 1].creation_date, x.creation_date),
    ensures
        placed(list, x) == list.insert(at, x),
    decreases list.len(),
{
    if list.len() == 0 {
        assert(list.insert(at, x) =~= seq![x]);
    } else if at == list.len() {
        assert(list.insert(at, x) =~= list.push(x));
    } else {
        lemma_placed_at(list.drop_last(), x, at);
        assert(list.drop_last().insert(at, x).push(list.last()) =~= list.insert(at, x));
    }
}

/// Orders the list by creation date, newest first, as `newest_first` says.
pub fn sort_newest_first(list: Vec<AmiInfo>) -> (r: Vec<AmiInfo>)
    ensures
        r@ == newest_first(list@),
{
    let mut sorted: Vec<AmiInfo> = Vec::new();
    let ghost all = list@;
    for info in it: list
        invariant
            it.seq() == all,
            sorted@ == newest_first(all.take(it.index() as int)),
    {
        let ghost n = it.index() as int;
        proof {
            assert(all.take(n + 1).drop_last() =~= all.take(n));
            assert(all.take(n + 1).last() == info);
        }
        let mut at: usize = sorted.len();
        while at > 0 && is_before(&sorted[at - 1].creation_date, &info.creation_date)
            invariant
                at <= sorted.len(),
                forall|k: int|
                    at <= k < sorted.len() ==> date_before(
                        sorted@[k].creation_date,
                        info.creation_date,
                    ),
            decreases at,
        {
            at = at - 1;
        }
        proof {
            lemma_placed_at(sorted@, info, at as int);
        }
        sorted.insert(at, info);
    }
    proof {
        assert(all.take(all.len() as int) =~= all);
    }
    sorted
}

/// Whether an image is to be listed: every image when there is no search
/// pattern; else those with a name that the pattern matches.
pub open spec fn wanted(image: Image, pattern: Option<Seq<char>>) -> bool {
    match pattern {
        None => true,
        Some(p) => image.name matches Some(name) && regex_matches(p, name@),
    }
}

/// The images to list, in response order, each as `ami_of` reads it; `None`
/// when the date of one of them cannot be read.
pub open spec fn chosen(images: Seq<Image>, pattern: Option<Seq<char>>) -> Option<Seq<AmiInfo>>
    decreases images.len(),
{
    if images.len() == 0 {
        Some(Seq::empty())
    } else {
        match chosen(images.drop_last(), pattern) {
            None => None,
            Some(earlier) => if wanted(images.last(), pattern) {
                match ami_of(images.last()) {
                    Some(info) => Some(earlier.push(info)),
                    None => None,
                }
            } else {
                Some(earlier)
            },
        }
    }
}

/// The pattern of an optional search, by its text.
pub open spec fn pattern_text(search: Option<SearchPattern>) -> Option<Seq<char>> {
    match search {
        Some(p) => Some(p.source()),
        None => None,
    }
}

/// Picks the images to list and reads their dates. The first date that
/// cannot be read ends the pick with an error.
pub fn choose_images(images: Vec<Image>, search: &Option<SearchPattern>) -> (r: Result<
    Vec<AmiInfo>,
    AwsInstanceError,
>)
    ensures
        match chosen(images@, pattern_text(*search)) {
            Some(list) => r matches Ok(found) && found@ == list,
            None => r matches Err(error) && error is DateParseError,
        },
{
    let mut found: Vec<AmiInfo> = Vec::new();
    let ghost all = images@;
    let ghost pattern = pattern_text(*search);
    for image in it: images
        invariant
            it.seq() == all,
            pattern == pattern_text(*search),
            chosen(all.take(it.index() as int), pattern) == Some(found@),
    {
        let ghost n = it.index() as int;
        proof {
            assert(all.take(n + 1).drop_last() =~= all.take(n));
            assert(all.take(n + 1).last() == image);
        }
        let take = match search {
            None => true,
            Some(p) => match &image.name {
                Some(name) => p.is_match(name.as_str()),
                None => false,
            },
        };
        if take {
            match AmiInfo::from_aws(image) {
                Ok(info) => {
                    found.push(info);
                },
                Err(error) => {
                    proof {
                        lemma_chosen_fails(all, pattern, n + 1);
                    }
                    return Err(error);
                },
            }
        }
    }
    proof {
        assert(all.take(all.len() as int) =~= all);
    }
    Ok(found)
}

/// Once the pick has failed on the first `n` images it fails on all.
pub proof fn lemma_chosen_fails(images: Seq<Image>, pattern: Option<Seq<char>>, n: int)
    requires
        0 <= n <= images.len(),
        chosen(images.take(n), pattern) is None,
    ensures
        chosen(images, pattern) is None,
    decreases images.len(),
{
    if n == images.len() {
        assert(images.take(n) =~= images);
    } else {
        assert(images.drop_last().take(n) =~= images.take(n));
        lemma_chosen_fails(images.drop_last(), pattern, n);
    }
}

/// The lines of the entries, one for each, in order.
pub open spec fn image_rows(list: Seq<AmiInfo>) -> Seq<Seq<char>> {
    Seq::new(list.len(), |i: int| list[i].row())
}

/// The image table: the heading, then the entries, newest first.
pub open spec fn image_table(list: Seq<AmiInfo>) -> Seq<Seq<char>> {
    seq![image_heading()] + image_rows(newest_first(list))
}

/// Writes the image table.
pub fn table(list: Vec<AmiInfo>) -> (r: Vec<String>)
    ensures
        texts(r@) == image_table(list@),
{
    let ghost given = list@;
    let sorted = sort_newest_first(list);
    let mut lines: Vec<String> = Vec::new();
    push_line(&mut lines, cells("AMI ID", "State", "Creation Date", "Name", "Description"));
    let mut i: usize = 0;
    proof {
        assert(texts(lines@) =~= seq![image_heading()] + image_rows(sorted@.take(0)));
    }
    while i < sorted.len()
        invariant
            i <= sorted.len(),
            texts(lines@) == seq![image_heading()] + image_rows(sorted@.take(i as int)),
        decreases sorted.len() - i,
    {
        let line = sorted[i].print();
        let ghost before = texts(lines@);
        push_line(&mut lines, line);
        proof {
            assert(seq![image_heading()] + image_rows(sorted@.take(i + 1)) =~= before.push(
                line@,
            ));
        }
        i = i + 1;
    }
    proof {
        assert(sorted@.take(sorted.len() as int) =~= sorted@);
    }
    lines
}

/// The text of a filter with its values.
pub open spec fn filter_text(filter: Filter) -> (Seq<char>, Seq<Seq<char>>) {
    (filter.name@, texts(filter.values@))
}

/// The names and values of a list of filters, in order.
pub open spec fn filter_texts(filters: Seq<(String, Vec<String>)>) -> Seq<
    (Seq<char>, Seq<Seq<char>>),
> {
    Seq::new(filters.len(), |i: int| (filters[i].0@, texts(filters[i].1@)))
}

/// The names and values of the filters of a request, in order.
pub open spec fn filters_of(list: Seq<Filter>) -> Seq<(Seq<char>, Seq<Seq<char>>)> {
    Seq::new(list.len(), |i: int| filter_text(list[i]))
}

/// Where the filter of the given name stands, if there is one; the first
/// place, should there be several.
pub open spec fn place_of(filters: Seq<(Seq<char>, Seq<Seq<char>>)>, name: Seq<char>) -> Option<
    int,
>
    decreases filters.len(),
{
    if filters.len() == 0 {
        None
    } else {
        match place_of(filters.drop_last(), name) {
            Some(at) => Some(at),
            None => if filters.last().0 == name {
                Some(filters.len() - 1)
            } else {
                None
            },
        }
    }
}

/// The filters with one entry to each name: an entry takes the place of an
/// earlier entry of its name, and stands where that one stood; an entry of
/// a new name goes to the end.
pub open spec fn by_name(filters: Seq<(Seq<char>, Seq<Seq<char>>)>) -> Seq<
    (Seq<char>, Seq<Seq<char>>),
>
    decreases filters.len(),
{
    if filters.len() == 0 {
        Seq::empty()
    } else {
        let earlier = by_name(filters.drop_last());
        match place_of(earlier, filters.last().0) {
            Some(at) => if 0 <= at < earlier.len() {
                earlier.update(at, filters.last())
            } else {
                earlier
            },
            None => earlier.push(filters.last()),
        }
    }
}

/// Whether no two filters bear the same name.
pub open spec fn names_differ(filters: Seq<(Seq<char>, Seq<Seq<char>>)>) -> bool {
    forall|i: int, j: int|
        0 <= i < j < filters.len() ==> (#[trigger] filters[i]).0 != (#[trigger] filters[j]).0
}

/// `place_of` finds a filter of the name where there is one, and none
/// where there is none.
pub proof fn lemma_place_of(filters: Seq<(Seq<char>, Seq<Seq<char>>)>, name: Seq<char>)
    ensures
        match place_of(filters, name) {
            Some(at) => 0 <= at < filters.len() && filters[at].0 == name,
            None => forall|i: int| 0 <= i < filters.len() ==> (#[trigger] filters[i]).0 != name,
        },
    decreases filters.len(),
{
    if filters.len() > 0 {
        lemma_place_of(filters.drop_last(), name);
        if place_of(filters.drop_last(), name) is None {
            assert forall|i: int| 0 <= i < filters.len() - 1 implies (#[trigger] filters[i]).0
                != name by {
                assert(filters.drop_last()[i] == filters[i]);
            }
        } else {
            let at = place_of(filters.drop_last(), name)->Some_0;
            assert(filters.drop_last()[at] == filters[at]);
        }
    }
}

/// After `by_name` no two filters bear the same name, every name that was
/// given is still there, and at least one filter is left where any was
/// given.
pub proof fn lemma_by_name(filters: Seq<(Seq<char>, Seq<Seq<char>>)>)
    ensures
        names_differ(by_name(filters)),
        filters.len() > 0 ==> by_name(filters).len() > 0,
        by_name(filters).len() <= filters.len(),
        forall|i: int|
            0 <= i < filters.len() ==> place_of(by_name(filters), (#[trigger] filters[i]).0)
                is Some,
    decreases filters.len(),
{
    if filters.len() > 0 {
        let shorter = filters.drop_last();
        let earlier = by_name(shorter);
        let last = filters.last();
        let out = by_name(filters);
        lemma_by_name(shorter);
        lemma_place_of(earlier, last.0);
        assert forall|i: int, j: int| 0 <= i < j < out.len() implies (#[trigger] out[i]).0 != (
        #[trigger] out[j]).0 by {
            match place_of(earlier, last.0) {
                Some(at) => {
                    assert(out[i].0 == earlier[i].0);
                    assert(out[j].0 == earlier[j].0);
                },
                None => {
                    if j < earlier.len() {
                        assert(out[i] == earlier[i] && out[j] == earlier[j]);
                    } else {
                        assert(out[i] == earlier[i]);
                    }
                },
            }
        }
        assert forall|i: int| 0 <= i < filters.len() implies place_of(
            out,
            (#[trigger] filters[i]).0,
        ) is Some by {
            let name = filters[i].0;
            lemma_place_of(out, name);
            if i < shorter.len() {
                assert(shorter[i] == filters[i]);
                lemma_place_of(earlier, name);
                let k = place_of(earlier, name)->Some_0;
                assert(out[k].0 == name) by {
                    match place_of(earlier, last.0) {
                        Some(at) => {
                            if k == at {
                            } else {
                                assert(out[k] == earlier[k]);
                            }
                        },
                        None => {
                            assert(out[k] == earlier[k]);
                        },
                    }
                }
            } else {
                match place_of(earlier, last.0) {
                    Some(at) => {
                        assert(out[at] == last);
                    },
                    None => {
                        assert(out[out.len() - 1] == last);
                    },
                }
            }
        }
    }
}

/// Filters that all bear different names are left as they are.
pub proof fn lemma_by_name_of_different_names(filters: Seq<(Seq<char>, Seq<Seq<char>>)>)
    requires
        names_differ(filters),
    ensures
        by_name(filters) == filters,
    decreases filters.len(),
{
    if filters.len() == 0 {
        assert(filters =~= Seq::empty());
    } else {
        let shorter = filters.drop_last();
        assert(names_differ(shorter)) by {
            assert forall|i: int, j: int| 0 <= i < j < shorter.len() implies (
            #[trigger] shorter[i]).0 != (#[trigger] shorter[j]).0 by {
                assert(shorter[i] == filters[i] && shorter[j] == filters[j]);
            }
        }
        lemma_by_name_of_different_names(shorter);
        lemma_place_of(shorter, filters.last().0);
        if place_of(shorter, filters.last().0) is Some {
            let at = place_of(shorter, filters.last().0)->Some_0;
            assert(shorter[at] == filters[at]);
            assert(filters[at].0 != filters[filters.len() - 1].0);
        }
        assert(shorter.push(filters.last()) =~= filters);
    }
}

/// Whether `request` asks for the images that pass the given filters: it
/// carries the filters with one entry to each name, as `by_name` orders
/// them, and no list of filters at all when there are none.
pub open spec fn asks_for_images(
    request: DescribeImagesRequest,
    filters: Seq<(Seq<char>, Seq<Seq<char>>)>,
) -> bool {
    if filters.len() == 0 {
        request.filters is None
    } else {
        request.filters matches Some(list) && filters_of(list@) == by_name(filters)
    }
}

fn find_filter(list: &Vec<Filter>, name: &str) -> (r: Option<usize>)
    ensures
        match r {
            Some(at) => at < list.len() && place_of(filters_of(list@), name@) == Some(at as int),
            None => place_of(filters_of(list@), name@) is None,
        },
{
    let ghost all = filters_of(list@);
    let mut i: usize = 0;
    proof {
        assert(all.take(0) =~= Seq::empty());
    }
    while i < list.len()
        invariant
            i <= list.len(),
            all == filters_of(list@),
            place_of(all.take(i as int), name@) is None,
        decreases list.len() - i,
    {
        proof {
            assert(all.take(i + 1).drop_last() =~= all.take(i as int));
            assert(all.take(i + 1).last() == filter_text(list@[i as int]));
        }
        if str_eq(list[i].name.as_str(), name) {
            proof {
                lemma_place_of_prefix(all, name@, i + 1);
            }
            return Some(i);
        }
        i = i + 1;
    }
    proof {
        assert(all.take(list.len() as int) =~= all);
    }
    None
}

/// A place found among the first `n` filters is the place among all.
pub proof fn lemma_place_of_prefix(
    filters: Seq<(Seq<char>, Seq<Seq<char>>)>,
    name: Seq<char>,
    n: int,
)
    requires
        0 <= n <= filters.len(),
        place_of(filters.take(n), name) is Some,
    ensures
        place_of(filters, name) == place_of(filters.take(n), name),
    decreases filters.len(),
{
    if n == filters.len() {
        assert(filters.take(n) =~= filters);
    } else {
        assert(filters.drop_last().take(n) =~= filters.take(n));
        lemma_place_of_prefix(filters.drop_last(), name, n);
    }
}

/// The request for the images that pass the filters. The map that the
/// filters stand for has one entry to a name, so a name that is given twice
/// is asked for once, with the values that were given last.
pub fn image_request(filter_values: &Vec<(String, Vec<String>)>) -> (r: DescribeImagesRequest)
    ensures
        asks_for_images(r, filter_texts(filter_values@)),
{
    if filter_values.len() == 0 {
        return DescribeImagesRequest { filters: None };
    }
    let mut list: Vec<Filter> = Vec::new();
    let mut i: usize = 0;
    proof {
        assert(filter_texts(filter_values@.take(0)) =~= Seq::empty());
        assert(filters_of(list@) =~= Seq::empty());
    }
    while i < filter_values.len()
        invariant
            i <= filter_values.len(),
            filters_of(list@) == by_name(filter_texts(filter_values@.take(i as int))),
        decreases filter_values.len() - i,
    {
        let name = filter_values[i].0.clone();
        let values = copy_texts(&filter_values[i].1);
        let ghost before = filters_of(list@);
        let ghost seen = filter_texts(filter_values@.take(i as int));
        let ghost next = filter_texts(filter_values@.take(i + 1));
        proof {
            assert(next.drop_last() =~= seen);
            assert(next.last() == (name@, texts(values@)));
        }
        match find_filter(&list, name.as_str()) {
            Some(at) => {
                list.set(at, Filter { name, values });
                proof {
                    assert(filters_of(list@) =~= before.update(
                        at as int,
                        (name@, texts(values@)),
                    ));
                }
            },
            None => {
                list.push(Filter { name, values });
                proof {
                    assert(filters_of(list@) =~= before.push((name@, texts(values@))));
                }
            },
        }
        i = i + 1;
    }
    proof {
        assert(filter_values@.take(filter_values.len() as int) =~= filter_values@);
        lemma_by_name(filter_texts(filter_values@));
    }
    DescribeImagesRequest { filters: Some(list) }
}

/// What is printed for a response: `No images found` where it holds no
/// list of images; else the table of the images chosen, unless the date of
/// one of them cannot be read, which is an error.
pub open spec fn images_listed(
    images: Option<Vec<Image>>,
    pattern: Option<Seq<char>>,
    result: Result<Vec<String>, AwsInstanceError>,
) -> bool {
    match images {
        None => result matches Ok(lines) && texts(lines@) == seq!["No images found"@],
        Some(list) => match chosen(list@, pattern) {
            Some(infos) => result matches Ok(lines) && texts(lines@) == image_table(infos),
            None => result matches Err(error) && error is DateParseError,
        },
    }
}

/// What the command comes to once its calls are known. A search pattern
/// that does not compile is an error and no call is made. Else one call is
/// made, for the images that pass the filters, one filter to a name; a fault is passed on as the
/// error of its kind; a response is printed as `images_listed` says.
pub open spec fn images_outcome(
    filters: Seq<(Seq<char>, Seq<Seq<char>>)>,
    search: Option<Seq<char>>,
    calls: Seq<Exchange>,
    result: Result<Vec<String>, AwsInstanceError>,
) -> bool {
    if search matches Some(pattern) && !regex_compiles(pattern) {
        calls.len() == 0 && (result matches Err(error) && error is RegexParseError)
    } else {
        &&& calls.len() == 1
        &&& calls[0].request matches Request::DescribeImages(request)
        &&& asks_for_images(request, filters)
        &&& match calls[0].reply {
            Ok(Reply::DescribeImages(response)) => images_listed(response.images, search, result),
            Ok(_) => false,
            Err(fault) => result == Err::<Vec<String>, AwsInstanceError>(error_of_fault(fault)),
        }
    }
}

/// Lists the images that pass the filters and, where a search pattern is
/// given, have a name that it matches. Returns the lines to print.
pub fn list_amis<C: Ec2Wrapper>(
    ec2_client: &mut Session<C>,
    filter_values: &Vec<(String, Vec<String>)>,
    search_string: Option<String>,
) -> (r: Result<Vec<String>, AwsInstanceError>)
    ensures
        final(ec2_client).extends(old(ec2_client)),
        images_outcome(
            filter_texts(filter_values@),
            opt_text(search_string),
            final(ec2_client).since(old(ec2_client)),
            r,
        ),
{
    let request = image_request(filter_values);
    let search: Option<SearchPattern> = match &search_string {
        None => None,
        Some(pattern) => match SearchPattern::new(pattern.as_str()) {
            Ok(compiled) => Some(compiled),
            Err(error) => {
                proof {
                    assert(ec2_client.since(old(ec2_client)) =~= Seq::<Exchange>::empty());
                }
                return Err(error);
            },
        },
    };
    let ghost asked = request;
    let reply = ec2_client.describe_images(request);
    proof {
        let calls = ec2_client.since(old(ec2_client));
        assert(calls =~= seq![describe_images_exchange(asked, reply)]);
    }
    match reply {
        Err(fault) => Err(AwsInstanceError::from(fault)),
        Ok(response) => match response.images {
            None => {
                let mut lines: Vec<String> = Vec::new();
                push_line(&mut lines, String::from_str("No images found"));
                proof {
                    assert(texts(lines@) =~= seq!["No images found"@]);
                }
                Ok(lines)
            },
            Some(images) => match choose_images(images, &search) {
                Ok(infos) => Ok(table(infos)),
                Err(error) => Err(error),
            },
        },
    }
}

/// Whether no entry of the list comes before a later one in time: the list
/// runs from the newest to the oldest.
pub open spec fn is_newest_first(list: Seq<AmiInfo>) -> bool {
    forall|i: int, j: int|
        0 <= i < j < list.len() ==> !date_before(
            #[trigger] list[i].creation_date,
            #[trigger] list[j].creation_date,
        )
}

/// Setting an entry into a list that runs newest first leaves it running
/// newest first, and holding what it held and the entry.
pub proof fn lemma_placed(list: Seq<AmiInfo>, x: AmiInfo)
    requires
        is_newest_first(list),
    ensures
        is_newest_first(placed(list, x)),
        placed(list, x).to_multiset() == list.to_multiset().insert(x),
        placed(list, x).len() == list.len() + 1,
    decreases list.len(),
{
    broadcast use vstd::seq_lib::to_multiset_build;

    if list.len() == 0 {
        assert(seq![x] =~= list.push(x));
    } else if date_before(list.last().creation_date, x.creation_date) {
        let shorter = list.drop_last();
        assert(is_newest_first(shorter)) by {
            assert forall|i: int, j: int| 0 <= i < j < shorter.len() implies !date_before(
                #[trigger] shorter[i].creation_date,
                #[trigger] shorter[j].creation_date,
            ) by {
                assert(shorter[i] == list[i] && shorter[j] == list[j]);
            }
        }
        lemma_placed(shorter, x);
        let inner = placed(shorter, x);
        let out = inner.push(list.last());
        assert(list =~= shorter.push(list.last()));
        assert(out.to_multiset() =~= list.to_multiset().insert(x));
        assert forall|i: int, j: int| 0 <= i < j < out.len() implies !date_before(
            #[trigger] out[i].creation_date,
            #[trigger] out[j].creation_date,
        ) by {
            if j < inner.len() {
                assert(out[i] == inner[i] && out[j] == inner[j]);
            } else {
                assert(out[j] == list.last());
                assert(out[i] == inner[i]);
                assert(inner.to_multiset().count(inner[i]) > 0) by {
                    inner.to_multiset_ensures();
                    assert(inner.contains(inner[i]));
                }
                if inner[i] == x {
                } else {
                    assert(shorter.to_multiset().count(inner[i]) > 0);
                    shorter.to_multiset_ensures();
                    assert(shorter.contains(inner[i]));
                    let k = choose|k: int| 0 <= k < shorter.len() && shorter[k] == inner[i];
                    assert(list[k] == inner[i]);
                    assert(!date_before(list[k].creation_date, list[list.len() - 1].creation_date));
                }
            }
        }
    } else {
        let out = list.push(x);
        assert forall|i: int, j: int| 0 <= i < j < out.len() implies !date_before(
            #[trigger] out[i].creation_date,
            #[trigger] out[j].creation_date,
        ) by {
            if j < list.len() {
                assert(out[i] == list[i] && out[j] == list[j]);
            } else {
                assert(out[j] == x);
                assert(out[i] == list[i]);
                if i < list.len() - 1 {
                    assert(!date_before(
                        list[i].creation_date,
                        list[list.len() - 1].creation_date,
                    ));
                }
            }
        }
    }
}

/// The ordered list runs from the newest entry to the oldest, and holds
/// exactly the entries that were given, each as often as it was given.
pub proof fn lemma_newest_first(list: Seq<AmiInfo>)
    ensures
        is_newest_first(newest_first(list)),
        newest_first(list).to_multiset() == list.to_multiset(),
        newest_first(list).len() == list.len(),
    decreases list.len(),
{
    broadcast use vstd::seq_lib::to_multiset_build;

    if list.len() == 0 {
        assert(list =~= Seq::<AmiInfo>::empty());
    } else {
        lemma_newest_first(list.drop_last());
        lemma_placed(newest_first(list.drop_last()), list.last());
        assert(list =~= list.drop_last().push(list.last()));
    }
}

/// Entries without a date come last: behind one of them stands no entry
/// that has a date.
pub proof fn lemma_undated_come_last(list: Seq<AmiInfo>, i: int, j: int)
    requires
        0 <= i < j < list.len(),
        newest_first(list)[i].creation_date is None,
    ensures
        newest_first(list)[j].creation_date is None,
{
    lemma_newest_first(list);
}

} // verus!
