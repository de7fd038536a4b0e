use crate::models::{clone_author, AuthorModel, ID};
use crate::text::{contains, folded, lowercase, occurs_in};
use vstd::prelude::*;

verus! {

/// A list to pick one item from, with a search field that narrows what is shown while
/// the list is open.
#[derive(Debug)]
pub struct SearchableDropdown<T> {
    /// The items to pick from. The contracts speak of them through
    /// [`SearchableDropdown::all_options`] and [`SearchableDropdown::set_options`].
    pub options: Vec<T>,
    selected: Option<T>,
    search_term: String,
    is_open: bool,
}

/// What a dropdown holds.
pub struct DropdownView<T> {
    pub options: Seq<T>,
    pub selected: Option<T>,
    pub search_term: Seq<char>,
    pub is_open: bool,
}

impl<T> View for SearchableDropdown<T> {
    type V = DropdownView<T>;

    closed spec fn view(&self) -> DropdownView<T> {
        DropdownView {
            options: self.options@,
            selected: self.selected,
            search_term: self.search_term@,
            is_open: self.is_open,
        }
    }
}

impl<T: Clone + PartialEq> SearchableDropdown<T> {
    /// A closed dropdown over `options`, with `selected` picked and nothing searched
    /// for.
    pub fn new(options: Vec<T>, selected: Option<T>) -> (dropdown: Self)
        ensures
            dropdown@ == (DropdownView {
                options: options@,
                selected,
                search_term: Seq::empty(),
                is_open: false,
            }),
    {
        Self { options, selected, search_term: String::new(), is_open: false }
    }

    /// Opens the dropdown if it is closed, and closes it if it is open. Closing drops
    /// what was searched for.
    pub fn toggle(&mut self)
        ensures
            final(self)@ == (DropdownView {
                search_term: if old(self)@.is_open {
                    Seq::empty()
                } else {
                    old(self)@.search_term
                },
                is_open: !old(self)@.is_open,
                ..old(self)@
            }),
    {
        self.is_open = !self.is_open;
        if !self.is_open {
            self.search_term = String::new();
        }
    }

    /// Closes the dropdown and drops what was searched for.
    pub fn close(&mut self)
        ensures
            final(self)@ == (DropdownView {
                search_term: Seq::empty(),
                is_open: false,
                ..old(self)@
            }),
    {
        self.is_open = false;
        self.search_term = String::new();
    }

    /// Searches for `term`. The selection stays as it is.
    pub fn search(&mut self, term: String)
        ensures
            final(self)@ == (DropdownView { search_term: term@, ..old(self)@ }),
    {
        self.search_term = term;
    }

    /// Picks `item`, closes the dropdown and drops what was searched for.
    pub fn select(&mut self, item: T)
        ensures
            final(self)@ == (DropdownView {
                selected: Some(item),
                search_term: Seq::empty(),
                is_open: false,
                ..old(self)@
            }),
    {
        self.selected = Some(item);
        self.close();
    }

    /// The item that is picked.
    pub fn selected(&self) -> (item: Option<&T>)
        ensures
            item == match self@.selected {
                Some(picked) => Some(&picked),
                None => None,
            },
    {
        self.selected.as_ref()
    }

    /// The items to pick from, in their order.
    pub fn all_options(&self) -> (options: &Vec<T>)
        ensures
            options@ == self@.options,
    {
        &self.options
    }

    /// Puts other items to pick from in the place of the options. What is picked,
    /// what is searched for and whether the list is open stay as they are.
    pub fn set_options(&mut self, options: Vec<T>)
        ensures
            final(self)@ == (DropdownView { options: options@, ..old(self)@ }),
    {
        self.options = options;
    }

    /// Whether the list is open.
    pub fn is_open(&self) -> (open: bool)
        ensures
            open == self@.is_open,
    {
        self.is_open
    }

    /// What is searched for.
    pub fn search_term(&self) -> (term: &String)
        ensures
            term@ == self@.search_term,
    {
        &self.search_term
    }
}

/// What a dropdown needs of the items it lists: an identity that tells one item from
/// another, and a label to search them by.
pub trait Listed: Sized {
    /// What tells the item from every other item.
    spec fn identity(&self) -> ID;

    /// The label the item is searched by.
    spec fn search_label(&self) -> Seq<char>;

    /// What tells the item from every other item.
    fn id(&self) -> (id: ID)
        ensures
            id == self.identity(),
    ;

    /// The label the item is searched by.
    fn label_to_search(&self) -> (label: String)
        ensures
            label@ == self.search_label(),
    ;

    /// A copy of the item.
    fn copied(&self) -> (copy: Self)
        ensures
            copy == *self,
    ;
}

/// An author is told by id, and searched by name; an author without a name has the
/// empty name.
impl Listed for AuthorModel {
    open spec fn identity(&self) -> ID {
        self.Id
    }

    open spec fn search_label(&self) -> Seq<char> {
        match self.Name {
            Some(name) => name@,
            None => Seq::empty(),
        }
    }

    fn id(&self) -> (id: ID) {
        self.Id
    }

    fn label_to_search(&self) -> (label: String) {
        match &self.Name {
            Some(name) => name.clone(),
            None => String::new(),
        }
    }

    fn copied(&self) -> (copy: Self) {
        self.clone()
    }
}

/// Whether an item is shown while `term` is searched for: every item while nothing
/// is, else those whose label holds the term, both taken in lower case.
pub open spec fn shown_for<T: Listed>(item: T, term: Seq<char>) -> bool {
    term.len() == 0 || occurs_in(lowercase(term), lowercase(item.search_label()))
}

/// The items that a dropdown shows: its options, narrowed by what is searched for.
pub open spec fn visible<T: Listed>(dropdown: DropdownView<T>) -> Seq<T> {
    dropdown.options.filter(|item: T| shown_for(item, dropdown.search_term))
}

/// While nothing is searched for, a dropdown shows all its options.
pub proof fn nothing_searched_shows_every_option<T: Listed>(dropdown: DropdownView<T>)
    requires
        dropdown.search_term.len() == 0,
    ensures
        visible(dropdown) == dropdown.options,
{
    every_option_passes(dropdown.options, dropdown.search_term);
}

proof fn every_option_passes<T: Listed>(options: Seq<T>, term: Seq<char>)
    requires
        term.len() == 0,
    ensures
        options.filter(|item: T| shown_for(item, term)) == options,
    decreases options.len(),
{
    reveal(Seq::filter);
    if options.len() > 0 {
        every_option_passes(options.drop_last(), term);
        assert(options.drop_last().push(options.last()) =~= options);
    }
}

/// Whether `item` is the item that is picked in a dropdown. Items are told apart by
/// their identities: two items with the same label are two items.
pub open spec fn is_picked<T: Listed>(dropdown: DropdownView<T>, item: T) -> bool {
    dropdown.selected matches Some(chosen) && chosen.identity() == item.identity()
}

/// The caption of a dropdown in which nothing is picked, or an author without a name.
pub open spec fn placeholder() -> Seq<char> {
    "Select an author"@
}

impl<T: Listed> SearchableDropdown<T> {
    /// The items that the dropdown shows for what is searched for, in the order of
    /// its options.
    pub fn visible_options(&self) -> (shown: Vec<T>)
        ensures
            shown@ == visible(self@),
    {
        let ghost term = self.search_term@;
        let ghost pred = |item: T| shown_for(item, term);
        let searching = !self.search_term.as_str().is_empty();
        let needle = folded(self.search_term.as_str());
        let mut shown: Vec<T> = Vec::new();
        let mut i: usize = 0;
        proof {
            reveal(Seq::filter);
            assert(self.options@.take(0) =~= Seq::<T>::empty());
        }
        while i < self.options.len()
            invariant
                i <= self.options.len(),
                term == self.search_term@,
                searching == (term.len() != 0),
                needle@ == lowercase(term),
                pred == |item: T| shown_for(item, term),
                shown@ == self.options@.take(i as int).filter(pred),
            decreases self.options.len() - i,
        {
            proof {
                reveal(Seq::filter);
                assert(self.options@.take(i + 1).drop_last() =~= self.options@.take(i as int));
                assert(self.options@.take(i + 1).last() == self.options@[i as int]);
            }
            let item = &self.options[i];
            let keep = if searching {
                let label = folded(item.label_to_search().as_str());
                contains(&label, &needle)
            } else {
                true
            };
            if keep {
                shown.push(item.copied());
            }
            i += 1;
        }
        assert(self.options@.take(self.options@.len() as int) =~= self.options@);
        shown
    }

    /// Whether `item` is the item that is picked.
    pub fn is_selected(&self, item: &T) -> (picked: bool)
        ensures
            picked == is_picked(self@, *item),
    {
        match &self.selected {
            Some(chosen) => chosen.id() == item.id(),
            None => false,
        }
    }
}

impl SearchableDropdown<AuthorModel> {
    /// The caption of the closed dropdown: the name of the author that is picked, or
    /// [`placeholder`].
    pub fn caption(&self) -> (text: String)
        ensures
            text@ == match self@.selected {
                Some(author) => match author.Name {
                    Some(name) => name@,
                    None => placeholder(),
                },
                None => placeholder(),
            },
    {
        match &self.selected {
            Some(author) => match &author.Name {
                Some(name) => name.clone(),
                None => "Select an author".to_string(),
            },
            None => "Select an author".to_string(),
        }
    }

    /// A copy of the author that is picked.
    pub fn picked(&self) -> (author: Option<AuthorModel>)
        ensures
            author == self@.selected,
    {
        clone_author(&self.selected)
    }
}

} // verus!
