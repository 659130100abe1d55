//! What a launch or a hand-off from a second instance asks for: which
//! arguments count, where the app should navigate, which files it should
//! open, and how a burst of hand-offs is gathered into one batch.

use vstd::prelude::*;
use vstd::string::*;

use crate::percent::local_path;
use crate::percent::local_path_from_arg;

verus! {

/// True when `arg` is a command-line flag: it starts with `-`.
pub open spec fn is_flag(arg: Seq<char>) -> bool {
    arg.len() > 0 && arg[0] == '-'
}

/// The arguments that a launch hands on: all but the program name, without
/// the flags.
pub open spec fn launch_args_of(argv: Seq<String>) -> Seq<String> {
    if argv.len() == 0 {
        Seq::empty()
    } else {
        argv.skip(1).filter(|a: String| !is_flag(a@))
    }
}

fn starts_with_dash(arg: &String) -> (r: bool)
    ensures
        r == is_flag(arg@),
{
    let s = arg.as_str();
    s.unicode_len() > 0 && s.get_char(0) == '-'
}

/// Drops the program name and every flag from the process arguments,
/// keeping the rest in order.
pub fn launch_args(argv: &Vec<String>) -> (args: Vec<String>)
    ensures
        args@ == launch_args_of(argv@),
{
    let mut args: Vec<String> = Vec::new();
    if argv.len() == 0 {
        return args;
    }
    let mut i: usize = 1;
    assert(argv@.subrange(1, 1) =~= Seq::<String>::empty());
    proof {
        reveal(Seq::filter);
    }
    while i < argv.len()
        invariant
            1 <= i <= argv@.len(),
            args@ == argv@.subrange(1, i as int).filter(|a: String| !is_flag(a@)),
        decreases argv@.len() - i,
    {
        proof {
            reveal(Seq::filter);
        }
        assert(argv@.subrange(1, i + 1).drop_last() =~= argv@.subrange(1, i as int));
        if !starts_with_dash(&argv[i]) {
            args.push(argv[i].clone());
        }
        i += 1;
    }
    assert(argv@.subrange(1, i as int) =~= argv@.skip(1));
    args
}

/// Only a lone link overrides the startup screen: the argument to try as a
/// destination, present when there is exactly one.
pub fn startup_link(args: &Vec<String>) -> (link: Option<&String>)
    ensures
        link is Some <==> args@.len() == 1,
        link matches Some(a) ==> *a == args@[0],
{
    if args.len() == 1 {
        Some(&args[0])
    } else {
        None
    }
}

/// Whether the launch arguments go to the open batch once the app is up,
/// as the same batch a later hand-off uses: whenever there are some, unless
/// the lone one already opened a destination.
pub fn hands_args_to_batch(args: &Vec<String>, opened_destination: bool) -> (hand_off: bool)
    ensures
        hand_off == (!opened_destination && args@.len() > 0),
{
    !opened_destination && args.len() > 0
}

/// What a launch hands on: every argument after the program name that does
/// not start with `-` is kept, and everything kept is such an argument.
pub proof fn lemma_launch_args_drop_only_flags(argv: Seq<String>)
    ensures
        forall|i: int|
            1 <= i < argv.len() && ((#[trigger] argv[i])@.len() == 0 || argv[i]@[0] != '-')
                ==> launch_args_of(argv).contains(argv[i]),
        forall|k: int|
            0 <= k < launch_args_of(argv).len() ==> ((#[trigger] launch_args_of(argv)[k])@.len()
                == 0 || launch_args_of(argv)[k]@[0] != '-'),
        forall|k: int|
            0 <= k < launch_args_of(argv).len() ==> argv.len() > 0 && argv.skip(1).contains(
                #[trigger] launch_args_of(argv)[k],
            ),
{
    if argv.len() > 0 {
        let rest = argv.skip(1);
        let keep = |a: String| !is_flag(a@);
        assert forall|i: int|
            1 <= i < argv.len() && ((#[trigger] argv[i])@.len() == 0 || argv[i]@[0] != '-') implies launch_args_of(
            argv,
        ).contains(argv[i]) by {
            assert(rest[i - 1] == argv[i]);
            rest.lemma_filter_contains(keep, i - 1);
        }
        assert forall|k: int| 0 <= k < launch_args_of(argv).len() implies ((#[trigger] launch_args_of(
            argv,
        )[k])@.len() == 0 || launch_args_of(argv)[k]@[0] != '-') by {
            rest.lemma_filter_pred(keep, k);
        }
        assert forall|k: int| 0 <= k < launch_args_of(argv).len() implies argv.len() > 0
            && argv.skip(1).contains(#[trigger] launch_args_of(argv)[k]) by {
            let x = launch_args_of(argv)[k];
            assert(rest.filter(keep).contains(x));
            rest.lemma_filter_contains_rev(keep, x);
        }
    }
}

/// The last destination found among the hand-off items, if any.
pub open spec fn last_found<D>(found: Seq<Option<D>>) -> Option<D>
    decreases found.len(),
{
    if found.len() == 0 {
        None
    } else {
        match found.last() {
            Some(d) => Some(d),
            None => last_found(found.drop_last()),
        }
    }
}

/// The local paths of the items that named no destination, in order.
pub open spec fn opened_paths<D>(items: Seq<String>, found: Seq<Option<D>>) -> Seq<Seq<char>>
    decreases items.len(),
{
    if items.len() == 0 || found.len() == 0 {
        Seq::empty()
    } else {
        let earlier = opened_paths(items.drop_last(), found.drop_last());
        if found.last() is None {
            earlier.push(local_path(items.last()@))
        } else {
            earlier
        }
    }
}

/// The last item that names a destination decides where to go, and when no
/// item names one, the app goes nowhere.
pub proof fn lemma_last_destination_wins<D>(found: Seq<Option<D>>)
    ensures
        forall|i: int|
            0 <= i < found.len() && (#[trigger] found[i]) is Some && (forall|j: int|
                i < j < found.len() ==> found[j] is None) ==> last_found(found) == found[i],
        (forall|j: int| 0 <= j < found.len() ==> found[j] is None) ==> last_found(found) is None,
    decreases found.len(),
{
    if found.len() > 0 {
        lemma_last_destination_wins(found.drop_last());
        assert forall|i: int|
            0 <= i < found.len() && (#[trigger] found[i]) is Some && (forall|j: int|
                i < j < found.len() ==> found[j] is None) implies last_found(found) == found[i] by {
            if i < found.len() - 1 {
                assert(found.last() is None);
                assert(found.drop_last()[i] == found[i]);
                assert forall|j: int| i < j < found.drop_last().len() implies found.drop_last()[j] is None by {
                    assert(found.drop_last()[j] == found[j]);
                }
            }
        }
        if forall|j: int| 0 <= j < found.len() ==> found[j] is None {
            assert(found.last() is None);
            assert forall|j: int| 0 <= j < found.drop_last().len() implies found.drop_last()[j] is None by {
                assert(found.drop_last()[j] == found[j]);
            }
        }
    }
}

/// When no item names a destination, every item is opened as a local path,
/// in order; when every item names one, nothing is opened.
pub proof fn lemma_items_without_destination_are_opened_in_order<D>(
    items: Seq<String>,
    found: Seq<Option<D>>,
)
    requires
        items.len() == found.len(),
    ensures
        (forall|j: int| 0 <= j < found.len() ==> found[j] is None) ==> opened_paths(items, found)
            == items.map_values(|a: String| local_path(a@)),
        (forall|j: int| 0 <= j < found.len() ==> found[j] is Some) ==> opened_paths(items, found).len()
            == 0,
    decreases items.len(),
{
    if items.len() > 0 {
        lemma_items_without_destination_are_opened_in_order(items.drop_last(), found.drop_last());
        if forall|j: int| 0 <= j < found.len() ==> found[j] is None {
            assert(found.last() is None);
            assert forall|j: int| 0 <= j < found.drop_last().len() implies found.drop_last()[j] is None by {
                assert(found.drop_last()[j] == found[j]);
            }
            assert(items.map_values(|a: String| local_path(a@)) =~= items.drop_last().map_values(
                |a: String| local_path(a@),
            ).push(local_path(items.last()@)));
        }
        if forall|j: int| 0 <= j < found.len() ==> found[j] is Some {
            assert(found.last() is Some);
            assert forall|j: int| 0 <= j < found.drop_last().len() implies found.drop_last()[j] is Some by {
                assert(found.drop_last()[j] == found[j]);
            }
        }
    }
}

/// What following a batch of hand-off items comes to: the destination to
/// navigate to, and the files to open.
pub struct FollowPlan<D> {
    pub destination: Option<D>,
    pub paths: Vec<String>,
}

/// Follows a batch of hand-off items, given for each item the destination
/// it names (`found`, as the router reads it): the last destination wins,
/// and every item that names none is taken as a local path to open.
pub fn follow_plan<D>(items: &Vec<String>, found: Vec<Option<D>>) -> (plan: FollowPlan<D>)
    requires
        items@.len() == found@.len(),
    ensures
        plan.destination == last_found(found@),
        plan.paths@.map_values(|p: String| p@) == opened_paths(items@, found@),
{
    let mut paths: Vec<String> = Vec::new();
    let mut i: usize = 0;
    while i < items.len()
        invariant
            i <= items@.len(),
            items@.len() == found@.len(),
            paths@.map_values(|p: String| p@) == opened_paths(items@.take(i as int), found@.take(i as int)),
        decreases items@.len() - i,
    {
        assert(items@.take(i + 1).drop_last() =~= items@.take(i as int));
        assert(found@.take(i + 1).drop_last() =~= found@.take(i as int));
        if found[i].is_none() {
            match local_path_from_arg(items[i].as_str()) {
                Some(path) => {
                    paths.push(path);
                },
                None => {},
            }
        }
        i += 1;
        assert(paths@.map_values(|p: String| p@) =~= opened_paths(items@.take(i as int), found@.take(i as int)));
    }
    assert(items@.take(i as int) =~= items@);
    assert(found@.take(i as int) =~= found@);
    let ghost all = found@;
    let mut rest = found;
    let mut destination: Option<D> = None;
    while rest.len() > 0 && destination.is_none()
        invariant
            destination is Some ==> destination == last_found(all),
            destination is None ==> last_found(rest@) == last_found(all),
        decreases rest@.len(),
    {
        let ghost before = rest@;
        match rest.pop() {
            Some(Some(d)) => {
                destination = Some(d);
            },
            _ => {
                assert(rest@ =~= before.drop_last());
            },
        }
    }
    FollowPlan { destination, paths }
}

} // verus!
