use vstd::prelude::*;
use vstd::string::StringExecFns;

verus! {

/// One link of the chain: an element and the owning link to the node after it.
struct Node<T> {
    element: T,
    next: Option<Box<Node<T>>>,
}

impl<T> Node<T> {
    /// A detached node that holds `element` and has no successor.
    fn new(element: T) -> (node: Self)
        ensures
            node.element == element,
            node.next is None,
    {
        Node { element, next: None }
    }

    /// The elements reachable from `link`, first to last. Every node is owned
    /// by exactly one link, so the walk is finite and visits no node twice.
    spec fn chain(link: Option<Box<Node<T>>>) -> Seq<T>
        decreases link,
    {
        match link {
            None => Seq::empty(),
            Some(node) => seq![node.element] + Self::chain(node.next),
        }
    }
}

/// A singly linked list of individually allocated nodes. The list owns its
/// head, each node owns its successor, and there is no tail pointer: work at
/// the back walks the whole chain.
pub struct ForwardList<T> {
    head: Option<Box<Node<T>>>,
    size: usize,
}

impl<T> View for ForwardList<T> {
    type V = Seq<T>;

    /// The elements in chain order, the front at index 0.
    closed spec fn view(&self) -> Seq<T> {
        Node::chain(self.head)
    }
}

impl<T> ForwardList<T> {
    /// The stored node count.
    pub closed spec fn spec_size(&self) -> usize {
        self.size
    }

    /// The stored count equals the number of nodes reachable from the head.
    pub open spec fn wf(&self) -> bool {
        self.spec_size() == self@.len()
    }

    /// An empty list.
    pub fn new() -> (list: Self)
        ensures
            list.wf(),
            list@ == Seq::<T>::empty(),
    {
        ForwardList { head: None, size: 0 }
    }

    /// The number of elements.
    #[verifier::when_used_as_spec(spec_size)]
    pub fn size(&self) -> (n: usize)
        ensures
            n == self.spec_size(),
    {
        self.size
    }

    /// Whether the list holds no element.
    pub fn empty(&self) -> (none: bool)
        ensures
            none <==> self@.len() == 0,
    {
        self.head.is_none()
    }

    /// The first element, or `None` if the list is empty.
    pub fn front(&self) -> (front: Option<&T>)
        ensures
            self@.len() == 0 ==> front is None,
            self@.len() > 0 ==> front == Some(&self@[0]),
    {
        match &self.head {
            None => None,
            Some(node) => Some(&node.element),
        }
    }

    /// Write access to the first element, or `None` if the list is empty.
    /// Whatever the caller leaves behind the reference becomes the new front;
    /// nothing else changes.
    pub fn front_mut(&mut self) -> (front: Option<&mut T>)
        ensures
            old(self)@.len() == 0 ==> front is None && final(self)@ == old(self)@,
            old(self)@.len() > 0 ==> front is Some && *front->0 == old(self)@[0] && final(self)@
                == old(self)@.update(0, *final(front->0)),
            final(self).spec_size() == old(self).spec_size(),
            old(self).wf() ==> final(self).wf(),
    {
        match &mut self.head {
            None => None,
            Some(node) => Some(&mut node.element),
        }
    }

    /// Appends `element` behind the current last element.
    pub fn push_back(&mut self, element: T)
        requires
            old(self).wf(),
            old(self)@.len() < usize::MAX,
        ensures
            final(self).wf(),
            final(self)@ == old(self)@.push(element),
    {
        let node = Box::new(Node::new(element));
        self.push_back_node_ptr(node);
    }

    /// Removes the last element and returns it, or returns `None` and
    /// changes nothing if the list is empty.
    pub fn pop_back(&mut self) -> (popped: Option<T>)
        requires
            old(self).wf(),
        ensures
            final(self).wf(),
            old(self)@.len() == 0 ==> popped is None && final(self)@ == old(self)@,
            old(self)@.len() > 0 ==> popped == Some(old(self)@.last()) && final(self)@ == old(
                self,
            )@.drop_last(),
    {
        match self.pop_back_node_ptr() {
            None => None,
            Some(node) => Some(node.element),
        }
    }

    /// Hangs the detached node `ptr` on the first empty link of the chain:
    /// the head if the list is empty, else the `next` of the last node.
    fn push_back_node_ptr(&mut self, ptr: Box<Node<T>>)
        requires
            old(self).wf(),
            old(self)@.len() < usize::MAX,
            ptr.next is None,
        ensures
            final(self).wf(),
            final(self)@ == old(self)@.push(ptr.element),
    {
        let ghost whole = self@;
        let ghost mut walked: Seq<T> = Seq::empty();
        let mut cur = &mut self.head;
        loop
            invariant
                whole == walked + Node::chain(*cur),
                Node::chain(after_borrow(self.head)) == walked + Node::chain(*final(cur)),
            ensures
                *cur is None,
            decreases Node::chain(*cur).len(),
        {
            match cur {
                None => {
                    break ;
                },
                Some(node) => {
                    proof {
                        walked = walked.push(node.element);
                    }
                    cur = &mut node.next;
                },
            }
        }
        *cur = Some(ptr);
        self.size = self.size + 1;
    }

    /// Detaches the last node from the link that owns it (the head, or the
    /// `next` of the node before it) and hands it out.
    fn pop_back_node_ptr(&mut self) -> (popped: Option<Box<Node<T>>>)
        requires
            old(self).wf(),
        ensures
            final(self).wf(),
            old(self)@.len() == 0 ==> popped is None && final(self)@ == old(self)@,
            old(self)@.len() > 0 ==> popped is Some && popped->0.element == old(self)@.last()
                && popped->0.next is None && final(self)@ == old(self)@.drop_last(),
    {
        if self.head.is_none() {
            return None;
        }
        let ghost whole = self@;
        let ghost mut walked: Seq<T> = Seq::empty();
        let mut cur = &mut self.head;
        loop
            invariant
                *cur is Some,
                whole == walked + Node::chain(*cur),
                Node::chain(after_borrow(self.head)) == walked + Node::chain(*final(cur)),
            ensures
                cur->0.next is None,
            decreases Node::chain(*cur).len(),
        {
            let at_tail = match &*cur {
                Some(node) => node.next.is_none(),
                None => true,
            };
            if at_tail {
                break ;
            }
            match cur {
                Some(node) => {
                    proof {
                        walked = walked.push(node.element);
                    }
                    cur = &mut node.next;
                },
                None => {},
            }
        }
        let popped = cur.take();
        self.size = self.size - 1;
        popped
    }
}

impl<T> Default for ForwardList<T> {
    /// The empty list.
    fn default() -> (list: Self)
        ensures
            list.wf(),
            list@ == Seq::<T>::empty(),
    {
        Self::new()
    }
}

impl<T> Drop for ForwardList<T> {
    /// Unwinds the chain with a loop: each turn takes the current first node,
    /// detaches its successor and lets the node go, so the depth of the call
    /// stack does not grow with the length of the list.
    fn drop(&mut self)
        opens_invariants none
        no_unwind
    {
        let mut link: Option<Box<Node<T>>> = None;
        std::mem::swap(&mut link, &mut self.head);
        self.size = 0;
        loop
            decreases Node::chain(link).len(),
        {
            match link {
                None => {
                    break ;
                },
                Some(mut node) => {
                    let mut rest: Option<Box<Node<T>>> = None;
                    std::mem::swap(&mut rest, &mut node.next);
                    link = rest;
                },
            }
        }
    }
}

/// The arrows of a trace: every label followed by `->`, in order.
pub open spec fn trace_prefix(labels: Seq<Seq<char>>) -> Seq<char>
    decreases labels.len(),
{
    if labels.len() == 0 {
        Seq::empty()
    } else {
        trace_prefix(labels.drop_last()) + labels.last() + "->"@
    }
}

/// The trace of a list whose elements print as `labels`: `a->b->None` for the
/// labels `a` and `b`, and `None` alone for no label.
pub open spec fn trace_text(labels: Seq<Seq<char>>) -> Seq<char> {
    trace_prefix(labels) + "None"@
}

/// The texts of `labels`, one for one.
pub open spec fn label_views(labels: Seq<String>) -> Seq<Seq<char>> {
    Seq::new(labels.len(), |i: int| labels[i]@)
}

/// Joins the printed elements of a list into its trace.
pub fn render_trace(labels: &Vec<String>) -> (text: String)
    ensures
        text@ == trace_text(label_views(labels@)),
{
    let mut text = String::new();
    let mut i: usize = 0;
    while i < labels.len()
        invariant
            i <= labels.len(),
            text@ == trace_prefix(label_views(labels@.take(i as int))),
        decreases labels.len() - i,
    {
        proof {
            let next = label_views(labels@.take(i + 1));
            assert(next.drop_last() == label_views(labels@.take(i as int)));
            assert(next.last() == labels@[i as int]@);
        }
        text.append(labels[i].as_str());
        text.append("->");
        i = i + 1;
    }
    proof {
        assert(labels@.take(i as int) == labels@);
    }
    text.append("None");
    text
}

/// Prints one element through `format!("{:?}", ..)`, that is through the
/// element type's own `Debug` impl. The text is whatever that impl writes, so
/// nothing is claimed of it.
#[verifier::external_body]
fn debug_label<T: core::fmt::Debug>(element: &T) -> (label: String) {
    format!("{:?}", element)
}

impl<T: core::fmt::Debug> ForwardList<T> {
    /// The list as a trace for diagnostics: one label per element, in chain
    /// order, each printed by the element's `Debug` impl and followed by
    /// `->`, then `None`. The list is only read.
    pub fn debug_string(&self) -> (text: String)
        ensures
            exists|labels: Seq<Seq<char>>|
                labels.len() == self@.len() && text@ == trace_text(labels),
    {
        let mut labels: Vec<String> = Vec::new();
        let ghost mut walked: Seq<T> = Seq::empty();
        let mut cur = &self.head;
        loop
            invariant
                self@ == walked + Node::chain(*cur),
                labels@.len() == walked.len(),
            ensures
                labels@.len() == self@.len(),
            decreases Node::chain(*cur).len(),
        {
            match cur {
                None => {
                    break ;
                },
                Some(node) => {
                    labels.push(debug_label(&node.element));
                    proof {
                        walked = walked.push(node.element);
                    }
                    cur = &node.next;
                },
            }
        }
        let text = render_trace(&labels);
        proof {
            assert(label_views(labels@).len() == self@.len());
        }
        text
    }
}

} // verus!
