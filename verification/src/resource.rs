//! Named resources of the engine (pages, variables, switches and, in the
//! front end, images, texts and the like) and the lookups over lists of them.
use vstd::prelude::*;

verus! {

/// A resource drawn during the current frame, by type and name.
#[derive(Debug)]
pub struct RenderResource {
    pub discern_type: String,
    pub name: String,
}

impl View for RenderResource {
    type V = (Seq<char>, Seq<char>);

    open spec fn view(&self) -> (Seq<char>, Seq<char>) {
        (self.discern_type@, self.name@)
    }
}

pub open spec fn render_views(s: Seq<RenderResource>) -> Seq<(Seq<char>, Seq<char>)> {
    s.map_values(|r: RenderResource| r@)
}

/// A resource of the engine: it has a name, by which lists of resources are
/// searched, and a type name.
pub trait RustConstructorResource {
    spec fn spec_name(&self) -> Seq<char>;

    spec fn spec_expose_type(&self) -> Seq<char>;

    fn name(&self) -> (r: &str)
        ensures
            r@ == self.spec_name(),
    ;

    fn expose_type(&self) -> (r: &str)
        ensures
            r@ == self.spec_expose_type(),
    ;

    /// Records that the resource is drawn in this frame.
    fn reg_render_resource(&self, render_list: &mut Vec<RenderResource>)
        ensures
            render_views(final(render_list)@) == render_views(old(render_list)@).push(
                (self.spec_expose_type(), self.spec_name()),
            ),
    {
        let r = RenderResource {
            discern_type: self.expose_type().to_owned(),
            name: self.name().to_owned(),
        };
        let ghost before = old(render_list)@;
        render_list.push(r);
        assert(render_views(render_list@) =~= render_views(before).push(
            (self.spec_expose_type(), self.spec_name()),
        ));
    }
}

/// Whether some resource of the list is named `name`.
pub open spec fn has_resource<T: RustConstructorResource>(list: Seq<T>, name: Seq<char>) -> bool {
    exists|i: int| 0 <= i < list.len() && #[trigger] list[i].spec_name() == name
}


/// `i` is the position of the first resource named `name`.
pub open spec fn is_first_named<T: RustConstructorResource>(list: Seq<T>, name: Seq<char>, i: int) -> bool {
    0 <= i < list.len() && list[i].spec_name() == name && forall|j: int|
        0 <= j < i ==> #[trigger] list[j].spec_name() != name
}

/// The position of the first resource named `name` (meaningful where there
/// is one).
pub open spec fn first_named<T: RustConstructorResource>(list: Seq<T>, name: Seq<char>) -> int {
    choose|i: int| is_first_named(list, name, i)
}

/// A resource named `name` has a first position, and there is only one.
pub proof fn lemma_first_named<T: RustConstructorResource>(list: Seq<T>, name: Seq<char>, k: int)
    requires
        0 <= k < list.len(),
        list[k].spec_name() == name,
    ensures
        is_first_named(list, name, first_named(list, name)),
        first_named(list, name) <= k,
    decreases k,
{
    if exists|j: int| 0 <= j < k && #[trigger] list[j].spec_name() == name {
        let j = choose|j: int| 0 <= j < k && #[trigger] list[j].spec_name() == name;
        lemma_first_named(list, name, j);
    } else {
        assert(is_first_named(list, name, k));
    }
    lemma_first_named_unique(list, name);
}

/// Only one position is the first one named `name`.
pub proof fn lemma_first_named_unique<T: RustConstructorResource>(list: Seq<T>, name: Seq<char>)
    ensures
        forall|a: int, b: int|
            is_first_named(list, name, a) && is_first_named(list, name, b) ==> a == b,
{
    assert forall|a: int, b: int|
        is_first_named(list, name, a) && is_first_named(list, name, b) implies a == b by {
        if a < b {
            assert(list[a].spec_name() != name);
        } else if b < a {
            assert(list[b].spec_name() != name);
        }
    }
}

/// Whether a resource named `resource_name` is in the list.
pub fn check_resource_exist<T: RustConstructorResource>(
    resource_list: Vec<T>,
    resource_name: &str,
) -> (r: bool)
    ensures
        r == has_resource(resource_list@, resource_name@),
{
    find_resource(&resource_list, resource_name).is_some()
}

/// The position of the first resource named `resource_name`.
pub fn find_resource<T: RustConstructorResource>(
    resource_list: &Vec<T>,
    resource_name: &str,
) -> (r: Option<usize>)
    ensures
        match r {
            Some(i) => i < resource_list.len() && resource_list@[i as int].spec_name()
                == resource_name@ && forall|j: int|
                0 <= j < i ==> #[trigger] resource_list@[j].spec_name() != resource_name@,
            None => !has_resource(resource_list@, resource_name@),
        },
        match r {
            Some(i) => has_resource(resource_list@, resource_name@) && i == first_named(
                resource_list@,
                resource_name@,
            ),
            None => true,
        },
{
    let key = resource_name.to_owned();
    let mut i: usize = 0;
    while i < resource_list.len()
        invariant
            0 <= i <= resource_list.len(),
            key@ == resource_name@,
            forall|j: int| 0 <= j < i ==> #[trigger] resource_list@[j].spec_name() != resource_name@,
        decreases resource_list.len() - i,
    {
        let n = resource_list[i].name().to_owned();
        if n == key {
            proof {
                lemma_first_named(resource_list@, resource_name@, i as int);
                lemma_first_named_unique(resource_list@, resource_name@);
                assert(is_first_named(resource_list@, resource_name@, i as int));
            }
            return Some(i);
        }
        i = i + 1;
    }
    None
}

/// A page of the game and whether it has been set up since it was entered.
#[derive(Debug)]
pub struct PageData {
    pub discern_type: String,
    pub name: String,
    pub forced_update: bool,
    pub change_page_updated: bool,
}

impl RustConstructorResource for PageData {
    open spec fn spec_name(&self) -> Seq<char> {
        self.name@
    }

    open spec fn spec_expose_type(&self) -> Seq<char> {
        self.discern_type@
    }

    fn name(&self) -> (r: &str) {
        self.name.as_str()
    }

    fn expose_type(&self) -> (r: &str) {
        self.discern_type.as_str()
    }
}

/// How grave a reported problem is.
#[derive(Clone, Copy, Debug, PartialEq, Eq, Structural)]
pub enum SeverityLevel {
    MildWarning,
    SevereWarning,
    Error,
}

/// Where the game was when a problem was reported: the page, and the
/// seconds it had run in all and on that page, as the bit patterns of the
/// `f32` values (`f32::to_bits`).
#[derive(Debug)]
pub struct ReportState {
    pub current_page: String,
    pub current_total_runtime: u32,
    pub current_page_runtime: u32,
}

/// A reported problem.
#[derive(Debug)]
pub struct Problem {
    pub severity_level: SeverityLevel,
    pub problem: String,
    pub annotation: String,
    pub report_state: ReportState,
}

pub struct ProblemView {
    pub severity_level: SeverityLevel,
    pub problem: Seq<char>,
    pub annotation: Seq<char>,
    pub current_page: Seq<char>,
    pub current_total_runtime: u32,
    pub current_page_runtime: u32,
}

impl View for Problem {
    type V = ProblemView;

    open spec fn view(&self) -> ProblemView {
        ProblemView {
            severity_level: self.severity_level,
            problem: self.problem@,
            annotation: self.annotation@,
            current_page: self.report_state.current_page@,
            current_total_runtime: self.report_state.current_total_runtime,
            current_page_runtime: self.report_state.current_page_runtime,
        }
    }
}

} // verus!
