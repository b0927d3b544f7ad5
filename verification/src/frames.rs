//! The stack of active frames, and which browser target each of them lives in.

use crate::report::FailureCategory;
use crate::step_error::{plain_error, StepError};
use crate::text::same_text;
use vstd::prelude::*;
use vstd::string::*;

verus! {

/// The frames from the main frame's child down to the active one.
#[derive(Debug)]
pub struct FrameStack {
    pub frames: Vec<String>,
}

/// The last position below `end` of a frame with a target of its own.
pub open spec fn last_routed(routed: Seq<bool>, end: int) -> Option<int>
    decreases end,
{
    if end <= 0 {
        None
    } else if routed[end - 1] {
        Some(end - 1)
    } else {
        last_routed(routed, end - 1)
    }
}

fn last_routed_before(routed: &Vec<bool>, end: usize) -> (found: Option<usize>)
    requires
        end <= routed.len(),
    ensures
        match found {
            Some(index) => last_routed(routed@, end as int) == Some(index as int) && index < end,
            None => last_routed(routed@, end as int) is None,
        },
{
    let mut at: usize = end;
    while at > 0
        invariant
            at <= end <= routed.len(),
            last_routed(routed@, end as int) == last_routed(routed@, at as int),
        decreases at,
    {
        if routed[at - 1] {
            return Some(at - 1);
        }
        at -= 1;
    }
    None
}

/// The frames that a point of the active frame passes on its way to the page: the active frame,
/// and above it each frame with a target of its own.
pub open spec fn frames_above(routed: Seq<bool>, index: int) -> Seq<int>
    decreases index,
{
    if index < 0 {
        Seq::empty()
    } else {
        seq![index] + match last_routed(routed, index) {
            Some(above) => if 0 <= above < index {
                frames_above(routed, above)
            } else {
                Seq::empty()
            },
            None => Seq::empty(),
        }
    }
}

impl FrameStack {
    /// The main frame is active.
    pub fn new() -> (stack: FrameStack)
        ensures
            stack.frames@ == Seq::<String>::empty(),
    {
        FrameStack { frames: Vec::new() }
    }

    /// The active frame, unless it is the main one.
    pub fn frame(&self) -> (frame: Option<&String>)
        ensures
            match frame {
                Some(frame) => self.frames@.len() > 0 && *frame == self.frames@.last(),
                None => self.frames@.len() == 0,
            },
    {
        if self.frames.len() == 0 {
            None
        } else {
            Some(&self.frames[self.frames.len() - 1])
        }
    }

    /// Makes the main frame active.
    pub fn switch_to_main(&mut self)
        ensures
            final(self).frames@ == Seq::<String>::empty(),
    {
        self.frames.clear();
    }

    /// Makes the parent of the active frame active.
    pub fn switch_to_parent(&mut self) -> (result: Result<(), StepError>)
        ensures
            match result {
                Ok(_) => old(self).frames@.len() > 0 && final(self).frames@
                    == old(self).frames@.drop_last(),
                Err(error) => old(self).frames@.len() == 0 && final(self).frames@ == old(
                    self,
                ).frames@ && plain_error(
                    error,
                    FailureCategory::Navigation,
                    "active frame is already the main frame"@,
                ),
            },
    {
        if self.frames.pop().is_none() {
            return Err(
                StepError::new(
                    FailureCategory::Navigation,
                    "active frame is already the main frame",
                ),
            );
        }
        Ok(())
    }

    /// Makes the frame of an element active. An element without one is refused.
    pub fn switch_to_element(&mut self, frame: Option<String>) -> (result: Result<(), StepError>)
        ensures
            match frame {
                Some(frame) => result is Ok && final(self).frames@ == old(self).frames@.push(frame),
                None => {
                    &&& final(self).frames@ == old(self).frames@
                    &&& result is Err
                    &&& plain_error(
                        result->Err_0,
                        FailureCategory::Actionability,
                        "switch_frame target is not an iframe or frame element"@,
                    )
                },
            },
    {
        match frame {
            Some(frame) => {
                self.frames.push(frame);
                Ok(())
            },
            None => Err(
                StepError::new(
                    FailureCategory::Actionability,
                    "switch_frame target is not an iframe or frame element",
                ),
            ),
        }
    }

    /// The position of the innermost frame with a target of its own. `routed` says of each frame
    /// whether it has one.
    pub fn oopif_index(&self, routed: &Vec<bool>) -> (index: Option<usize>)
        requires
            routed.len() == self.frames.len(),
        ensures
            match index {
                Some(index) => last_routed(routed@, routed@.len() as int) == Some(index as int)
                    && index < routed.len(),
                None => last_routed(routed@, routed@.len() as int) is None,
            },
    {
        last_routed_before(routed, routed.len())
    }

    /// The active frame as its own target knows it: none where it is that target's main frame.
    pub fn local_frame(&self, routed: &Vec<bool>) -> (frame: Option<&String>)
        requires
            routed.len() == self.frames.len(),
        ensures
            match frame {
                Some(frame) => {
                    &&& self.frames@.len() > 0
                    &&& *frame == self.frames@.last()
                    &&& last_routed(routed@, routed@.len() as int) != Some(routed@.len() - 1)
                },
                None => self.frames@.len() == 0 || last_routed(routed@, routed@.len() as int)
                    == Some(routed@.len() - 1),
            },
    {
        match self.oopif_index(routed) {
            Some(index) => if index + 1 == self.frames.len() {
                None
            } else {
                self.frame()
            },
            None => self.frame(),
        }
    }

    /// The frames that a point of the active frame passes on its way to the page.
    pub fn point_path(&self, routed: &Vec<bool>) -> (path: Vec<usize>)
        requires
            routed.len() == self.frames.len(),
        ensures
            path@.map_values(|index: usize| index as int) == frames_above(
                routed@,
                routed@.len() - 1,
            ),
            forall|i: int| 0 <= i < path@.len() ==> #[trigger] path@[i] < routed@.len(),
    {
        let mut path: Vec<usize> = Vec::new();
        if routed.len() == 0 {
            assert(path@.map_values(|index: usize| index as int) == Seq::<int>::empty());
            return path;
        }
        let mut index: usize = routed.len() - 1;
        let mut done = false;
        assert(path@.map_values(|index: usize| index as int) + frames_above(routed@, index as int)
            == frames_above(routed@, routed@.len() - 1));
        while !done
            invariant
                index < routed.len(),
                forall|i: int| 0 <= i < path@.len() ==> #[trigger] path@[i] < routed@.len(),
                path@.map_values(|index: usize| index as int) + (if done {
                    Seq::<int>::empty()
                } else {
                    frames_above(routed@, index as int)
                }) == frames_above(routed@, routed@.len() - 1),
            decreases
                    if done {
                        0
                    } else {
                        index + 1
                    },
        {
            let ghost before = path@;
            path.push(index);
            assert(path@.map_values(|index: usize| index as int) == before.map_values(
                |index: usize| index as int,
            ).push(index as int));
            match last_routed_before(routed, index) {
                Some(above) => {
                    assert(before.map_values(|index: usize| index as int) + (seq![index as int]
                        + frames_above(routed@, above as int)) == path@.map_values(
                        |index: usize| index as int,
                    ) + frames_above(routed@, above as int));
                    index = above;
                },
                None => {
                    assert(before.map_values(|index: usize| index as int) + (seq![index as int]
                        + Seq::<int>::empty()) == path@.map_values(|index: usize| index as int)
                        + Seq::<int>::empty());
                    done = true;
                },
            }
        }
        assert(path@.map_values(|index: usize| index as int) + Seq::<int>::empty()
            == path@.map_values(|index: usize| index as int));
        path
    }
}

/// A frame and the frames inside it.
#[derive(Debug)]
pub struct FrameTree {
    pub id: String,
    pub url: String,
    pub children: Vec<FrameTree>,
}

/// The address of the first frame with that identifier, a frame before the frames inside it.
pub open spec fn frame_address(tree: FrameTree, id: Seq<char>) -> Option<Seq<char>>
    decreases tree,
{
    if tree.id@ == id {
        Some(tree.url@)
    } else {
        address_among(tree.children@, id)
    }
}

/// The address of the first frame with that identifier among trees.
pub open spec fn address_among(trees: Seq<FrameTree>, id: Seq<char>) -> Option<Seq<char>>
    decreases trees,
{
    if trees.len() == 0 {
        None
    } else {
        match frame_address(trees[0], id) {
            Some(url) => Some(url),
            None => address_among(trees.subrange(1, trees.len() as int), id),
        }
    }
}

proof fn child_frame_is_smaller(tree: FrameTree, i: int)
    requires
        0 <= i < tree.children@.len(),
    ensures
        decreases_to!(tree => tree.children@[i]),
{
    assert(decreases_to!(tree => tree.children));
    assert(decreases_to!(tree.children@ => tree.children@[i]));
}

/// Finds a frame in a tree of frames.
pub fn find_frame<'a>(tree: &'a FrameTree, id: &str) -> (found: Option<&'a String>)
    ensures
        match found {
            Some(url) => frame_address(*tree, id@) == Some(url@),
            None => frame_address(*tree, id@) is None,
        },
    decreases tree,
{
    if same_text(tree.id.as_str(), id) {
        return Some(&tree.url);
    }
    let mut i: usize = 0;
    assert(tree.children@.subrange(0, tree.children@.len() as int) == tree.children@);
    while i < tree.children.len()
        invariant
            i <= tree.children.len(),
            tree.id@ != id@,
            address_among(tree.children@, id@) == address_among(
                tree.children@.subrange(i as int, tree.children@.len() as int),
                id@,
            ),
        decreases tree.children.len() - i,
    {
        let ghost rest = tree.children@.subrange(i as int, tree.children@.len() as int);
        proof {
            child_frame_is_smaller(*tree, i as int);
            assert(rest[0] == tree.children@[i as int]);
            assert(rest.subrange(1, rest.len() as int) == tree.children@.subrange(
                i + 1,
                tree.children@.len() as int,
            ));
        }
        if let Some(url) = find_frame(&tree.children[i], id) {
            return Some(url);
        }
        i += 1;
    }
    None
}

/// The address of the active frame: of the frame itself where its target knows it as one, else of
/// the target.
pub fn active_url(tree: &FrameTree, local_frame: Option<&str>) -> (url: Option<String>)
    ensures
        crate::text::optional_text(url) == match local_frame {
            Some(frame) => frame_address(*tree, frame@),
            None => Some(tree.url@),
        },
{
    match local_frame {
        Some(frame) => match find_frame(tree, frame) {
            Some(url) => Some(url.clone()),
            None => None,
        },
        None => Some(tree.url.clone()),
    }
}

/// The nearest routed frame is the last one that is routed: none behind it is.
pub proof fn the_nearest_routed_frame_is_found(
    stack: FrameStack,
    routed: Vec<bool>,
    index: Option<usize>,
    i: int,
)
    requires
        routed@.len() == stack.frames@.len(),
        call_ensures(FrameStack::oopif_index, (&stack, &routed), index),
    ensures
        index matches Some(at) ==> at < routed@.len() && routed@[at as int] && (at < i
            < routed@.len() ==> !routed@[i]),
        index is None ==> (0 <= i < routed@.len() ==> !routed@[i]),
{
    last_routed_is_last(routed@, routed@.len() as int, i);
}

proof fn last_routed_is_last(routed: Seq<bool>, end: int, i: int)
    requires
        0 <= end <= routed.len(),
    ensures
        match last_routed(routed, end) {
            Some(at) => 0 <= at < end && routed[at] && (at < i < end ==> !routed[i]),
            None => 0 <= i < end ==> !routed[i],
        },
    decreases end,
{
    if end > 0 && !routed[end - 1] {
        last_routed_is_last(routed, end - 1, i);
    }
}

/// The active frame is local exactly if there is one and it is not routed itself.
pub proof fn unrouted_frames_are_local(
    stack: FrameStack,
    routed: Vec<bool>,
    local: Option<&String>,
    frame: Option<&String>,
)
    requires
        routed@.len() == stack.frames@.len(),
        call_ensures(FrameStack::local_frame, (&stack, &routed), local),
        call_ensures(FrameStack::frame, (&stack,), frame),
    ensures
        frame is Some <==> stack.frames@.len() > 0,
        frame is Some ==> *frame->0 == stack.frames@[stack.frames@.len() - 1],
        local is Some <==> stack.frames@.len() > 0 && !routed@[routed@.len() - 1],
        local is Some ==> *local->0 == stack.frames@[stack.frames@.len() - 1],
{
    last_routed_is_last(routed@, routed@.len() as int, routed@.len() - 1);
}

/// The way up from the active frame starts at that frame, goes on through routed frames only, each further up
/// than the last, and leaves none of them out.
pub proof fn points_go_up_through_routed_frames(
    stack: FrameStack,
    routed: Vec<bool>,
    path: Vec<usize>,
    i: int,
    k: int,
)
    requires
        routed@.len() == stack.frames@.len(),
        call_ensures(FrameStack::point_path, (&stack, &routed), path),
    ensures
        routed@.len() == 0 <==> path@.len() == 0,
        routed@.len() > 0 ==> path@[0] == routed@.len() - 1,
        0 < i < path@.len() ==> routed@[path@[i] as int] && path@[i] < path@[i - 1],
        0 <= k < routed@.len() - 1 && routed@[k] ==> path@.contains(k as usize),
{
    let shown = path@.map_values(|index: usize| index as int);
    let way = frames_above(routed@, routed@.len() - 1);
    assert(shown == way);
    assert(shown.len() == path@.len());
    if routed@.len() > 0 {
        ways_go_up(routed@, routed@.len() - 1, i, k);
        assert(shown[0] == path@[0]);
        if 0 < i < path@.len() {
            assert(shown[i] == path@[i] && shown[i - 1] == path@[i - 1]);
        }
        if 0 <= k < routed@.len() - 1 && routed@[k] {
            let at = way.index_of(k);
            assert(shown[at] == path@[at]);
            assert(path@[at] == k as usize);
        }
    }
}

proof fn ways_go_up(routed: Seq<bool>, index: int, i: int, k: int)
    requires
        0 <= index < routed.len(),
    ensures
        frames_above(routed, index).len() > 0,
        frames_above(routed, index)[0] == index,
        0 < i < frames_above(routed, index).len() ==> {
            &&& 0 <= frames_above(routed, index)[i] < routed.len()
            &&& routed[frames_above(routed, index)[i]]
            &&& frames_above(routed, index)[i] < frames_above(routed, index)[i - 1]
        },
        0 <= k < index && routed[k] ==> frames_above(routed, index).contains(k),
    decreases index,
{
    last_routed_is_last(routed, index, k);
    if let Some(above) = last_routed(routed, index) {
        let rest = frames_above(routed, above);
        let way = frames_above(routed, index);
        assert(way =~= seq![index] + rest);
        ways_go_up(routed, above, i - 1, k);
        if 0 < i < way.len() {
            assert(way[i] == rest[i - 1]);
            if i > 1 {
                assert(way[i - 1] == rest[i - 2]);
            }
        }
        if 0 <= k < index && routed[k] {
            if k == above {
                assert(way[1] == k);
            } else {
                assert(k < above);
                assert(way[1 + rest.index_of(k)] == k);
            }
        }
    }
}

/// A frame's address is found by its identifier, at the root or below it; what is found is the address of a
/// frame in the tree.
pub proof fn frames_are_found_by_identifier(tree: FrameTree, id: &str, found: Option<&String>)
    requires
        call_ensures(find_frame, (&tree, id), found),
    ensures
        tree.id@ == id@ ==> found is Some && found->0@ == tree.url@,
        tree.id@ != id@ && tree.children@.len() == 0 ==> found is None,
        tree.id@ != id@ && tree.children@.len() == 1 ==> (found is Some <==> frame_address(
            tree.children@[0],
            id@,
        ) is Some),
        tree.id@ != id@ && tree.children@.len() > 0 && tree.children@[0].id@ == id@ ==> found is Some
            && found->0@ == tree.children@[0].url@,
{
    if tree.children@.len() == 1 {
        let rest = tree.children@.subrange(1, 1);
        assert(rest =~= Seq::<FrameTree>::empty());
        assert(address_among(rest, id@) is None);
    }
}

/// The address of the active frame is the page's, where no local frame is active.
pub proof fn pages_have_the_address_of_their_root(
    tree: FrameTree,
    frame: Option<&str>,
    url: Option<String>,
    found: Option<&String>,
)
    requires
        call_ensures(active_url, (&tree, frame), url),
        frame is Some ==> call_ensures(find_frame, (&tree, frame->0), found),
    ensures
        frame is None ==> url is Some && url->0@ == tree.url@,
        frame is Some ==> (url is Some <==> found is Some) && (url is Some ==> url->0@
            == found->0@),
{
}

/// Entering a frame and going back to its parent leads to where one was; the page itself has no parent.
pub proof fn frames_are_entered_and_left(
    entered: &mut FrameStack,
    frame: Option<String>,
    into: Result<(), StepError>,
    left: &mut FrameStack,
    out: Result<(), StepError>,
    main: &mut FrameStack,
)
    requires
        call_ensures(FrameStack::switch_to_element, (entered, frame), into),
        call_ensures(FrameStack::switch_to_parent, (left,), out),
        call_ensures(FrameStack::switch_to_main, (main,), ()),
        old(left).frames@ == final(entered).frames@,
    ensures
        into is Ok <==> frame is Some,
        into is Ok ==> final(entered).frames@.last() == frame->0 && out is Ok && final(left).frames@
            == old(entered).frames@,
        into is Err ==> final(entered).frames@ == old(entered).frames@ && into->Err_0.category
            is Actionability,
        out is Ok <==> old(left).frames@.len() > 0,
        out is Err ==> out->Err_0.category is Navigation && final(left).frames@
            == old(left).frames@,
        final(main).frames@.len() == 0,
{
    if frame is Some {
        assert(old(entered).frames@.push(frame->0).drop_last() =~= old(entered).frames@);
    }
}

} // verus!
