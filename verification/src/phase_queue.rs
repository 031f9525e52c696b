use vstd::prelude::*;
use crate::pipeline_spec::Msaa;

verus! {

/// What a view offers to the queue step: whether it has a transparent render phase,
/// its MSAA setting, and its visible entities, each with the render data found for it
/// (`None` when the entity has none and is passed over).
pub struct PhaseView<E, D> {
    pub has_phase: bool,
    pub msaa: Msaa,
    pub visible: Vec<(E, Option<D>)>,
}

/// One item to add to the transparent phase of view number `view`.
#[derive(Debug, Clone, Copy)]
pub struct QueuedItem<E, D> {
    pub view: usize,
    pub msaa: Msaa,
    pub entity: E,
    pub data: D,
}

/// The items one view contributes: its visible entities that have render data, in
/// order.
pub open spec fn view_items<E, D>(view: usize, msaa: Msaa, visible: Seq<(E, Option<D>)>) -> Seq<
    QueuedItem<E, D>,
>
    decreases visible.len(),
{
    if visible.len() == 0 {
        Seq::empty()
    } else {
        let rest = view_items(view, msaa, visible.drop_last());
        match visible.last().1 {
            Option::Some(d) => rest.push(
                QueuedItem { view, msaa, entity: visible.last().0, data: d },
            ),
            Option::None => rest,
        }
    }
}

/// The items all views contribute, view by view; a view without a transparent phase
/// contributes none.
pub open spec fn queue_plan<E, D>(views: Seq<PhaseView<E, D>>) -> Seq<QueuedItem<E, D>>
    decreases views.len(),
{
    if views.len() == 0 {
        Seq::empty()
    } else {
        let k = views.len() - 1;
        let last = views.last();
        queue_plan(views.drop_last()) + if last.has_phase {
            view_items(k as usize, last.msaa, last.visible@)
        } else {
            Seq::empty()
        }
    }
}

/// The items a view contributes when it has a transparent phase: keep its visible
/// entities that have render data, in order, and make each one an item of view number
/// `view` with the view's MSAA setting.
pub open spec fn items_with_data<E, D>(view: usize, msaa: Msaa, visible: Seq<(E, Option<D>)>) -> Seq<
    QueuedItem<E, D>,
> {
    visible.filter(|e: (E, Option<D>)| e.1 is Some).map_values(
        |e: (E, Option<D>)| QueuedItem { view, msaa, entity: e.0, data: e.1->0 },
    )
}

/// The items a view contributes: those of `items_with_data` if it has a transparent
/// phase, none otherwise.
pub open spec fn phase_view_items<E, D>(view: usize, v: PhaseView<E, D>) -> Seq<QueuedItem<E, D>> {
    if v.has_phase {
        items_with_data(view, v.msaa, v.visible@)
    } else {
        Seq::empty()
    }
}

/// A view's items are exactly its visible entities that have render data, each once
/// and in order, with the view's number and MSAA setting.
pub proof fn lemma_view_items_are_entities_with_data<E, D>(
    view: usize,
    msaa: Msaa,
    visible: Seq<(E, Option<D>)>,
)
    ensures
        view_items(view, msaa, visible) == items_with_data(view, msaa, visible),
    decreases visible.len(),
{
    let p = |e: (E, Option<D>)| e.1 is Some;
    let f = |e: (E, Option<D>)| QueuedItem { view, msaa, entity: e.0, data: e.1->0 };
    if visible.len() == 0 {
        reveal(Seq::filter);
        assert(visible.filter(p).map_values(f) =~= Seq::<QueuedItem<E, D>>::empty());
    } else {
        let rest = visible.drop_last();
        lemma_view_items_are_entities_with_data(view, msaa, rest);
        assert(visible =~= rest.push(visible.last()));
        rest.lemma_filter_push(visible.last(), p);
        let fr = rest.filter(p);
        if p(visible.last()) {
            assert(fr.push(visible.last()).map_values(f) =~= fr.map_values(f).push(
                f(visible.last()),
            ));
        }
    }
}

/// The plan is the views' items laid end to end, view by view: every visible entity
/// with render data of every view that has a transparent phase is queued exactly once,
/// in order, with its view's number and MSAA setting, and nothing else is.
pub proof fn lemma_queue_plan_is_views_in_order<E, D>(views: Seq<PhaseView<E, D>>)
    ensures
        queue_plan(views) == Seq::new(
            views.len(),
            |v: int| phase_view_items(v as usize, views[v]),
        ).flatten(),
    decreases views.len(),
{
    let s = Seq::new(views.len(), |v: int| phase_view_items(v as usize, views[v]));
    if views.len() == 0 {
        assert(s.flatten() =~= Seq::<QueuedItem<E, D>>::empty());
    } else {
        let k = views.len() - 1;
        let rest = views.drop_last();
        lemma_queue_plan_is_views_in_order(rest);
        let sr = Seq::new(rest.len(), |v: int| phase_view_items(v as usize, rest[v]));
        assert(sr =~= s.drop_last());
        lemma_view_items_are_entities_with_data(k as usize, views.last().msaa, views.last().visible@);
        s.lemma_flatten_and_flatten_alt_are_equivalent();
        sr.lemma_flatten_and_flatten_alt_are_equivalent();
        assert(s.flatten_alt() == s.drop_last().flatten_alt() + s.last());
        assert(s.last() == phase_view_items(k as usize, views.last()));
        if views.last().has_phase {
            assert(queue_plan(views) == queue_plan(rest) + view_items(
                k as usize,
                views.last().msaa,
                views.last().visible@,
            ));
        } else {
            assert(queue_plan(views) =~= queue_plan(rest));
            assert(s.flatten_alt() =~= sr.flatten_alt());
        }
    }
}

/// Every visible entity with render data of a view that has a transparent phase is
/// queued for that view, with the view's MSAA setting.
pub proof fn lemma_queue_plan_complete<E, D>(views: Seq<PhaseView<E, D>>, v: int, j: int)
    requires
        0 <= v < views.len(),
        views.len() <= usize::MAX,
        views[v].has_phase,
        0 <= j < views[v].visible@.len(),
        views[v].visible@[j].1 is Some,
    ensures
        queue_plan(views).contains(
            QueuedItem {
                view: v as usize,
                msaa: views[v].msaa,
                entity: views[v].visible@[j].0,
                data: views[v].visible@[j].1->0,
            },
        ),
    decreases views.len(),
{
    let k = views.len() - 1;
    let rest = views.drop_last();
    let item = QueuedItem {
        view: v as usize,
        msaa: views[v].msaa,
        entity: views[v].visible@[j].0,
        data: views[v].visible@[j].1->0,
    };
    if v < k {
        lemma_queue_plan_complete(rest, v, j);
        assert(rest[v] == views[v]);
        let q = choose|q: int| 0 <= q < queue_plan(rest).len() && queue_plan(rest)[q] == item;
        assert(queue_plan(views)[q] == item);
    } else {
        let vis = views[v].visible@;
        let p = |e: (E, Option<D>)| e.1 is Some;
        lemma_view_items_are_entities_with_data(k as usize, views[v].msaa, vis);
        broadcast use vstd::seq_lib::group_filter_ensures;
        assert(p(vis[j]));
        assert(vis.filter(p).contains(vis[j]));
        let t = choose|t: int| 0 <= t < vis.filter(p).len() && vis.filter(p)[t] == vis[j];
        let mine = view_items(k as usize, views[v].msaa, vis);
        assert(mine[t] == item);
        let front = queue_plan(rest);
        assert(queue_plan(views) == front + mine);
        assert(queue_plan(views)[front.len() + t] == item);
    }
}

/// Decides which phase items the queue step adds: for every view that has a
/// transparent phase, every visible entity that has render data, in order.
pub fn plan_phase_items<E: Copy, D: Copy>(views: &Vec<PhaseView<E, D>>) -> (r: Vec<QueuedItem<E, D>>)
    ensures
        r@ == queue_plan(views@),
        r@ == Seq::new(views@.len(), |v: int| phase_view_items(v as usize, views@[v])).flatten(),
{
    proof {
        lemma_queue_plan_is_views_in_order(views@);
    }
    let mut r: Vec<QueuedItem<E, D>> = Vec::new();
    let n = views.len();
    let mut i: usize = 0;
    while i < n
        invariant
            n == views@.len(),
            i <= n,
            r@ == queue_plan(views@.take(i as int)),
        decreases n - i,
    {
        let view = &views[i];
        proof {
            assert(views@.take(i + 1).drop_last() =~= views@.take(i as int));
        }
        if view.has_phase {
            let m = view.visible.len();
            let ghost base = r@;
            let mut j: usize = 0;
            while j < m
                invariant
                    m == view.visible@.len(),
                    j <= m,
                    r@ == base + view_items(i, view.msaa, view.visible@.take(j as int)),
                decreases m - j,
            {
                let (entity, data) = view.visible[j];
                proof {
                    assert(view.visible@.take(j + 1).drop_last() =~= view.visible@.take(j as int));
                }
                match data {
                    Option::Some(d) => {
                        r.push(QueuedItem { view: i, msaa: view.msaa, entity, data: d });
                        proof {
                            assert(r@ =~= base + view_items(
                                i,
                                view.msaa,
                                view.visible@.take(j + 1),
                            ));
                        }
                    },
                    Option::None => {},
                }
                j = j + 1;
            }
            proof {
                assert(view.visible@.take(m as int) =~= view.visible@);
            }
        } else {
            proof {
                assert(r@ =~= queue_plan(views@.take(i + 1)));
            }
        }
        i = i + 1;
    }
    proof {
        assert(views@.take(n as int) =~= views@);
    }
    r
}

/// Every item a view contributes is one of its visible entities, with the render
/// data found for it and the view's MSAA setting.
pub proof fn lemma_view_items_sound<E, D>(view: usize, msaa: Msaa, visible: Seq<(E, Option<D>)>)
    ensures
        forall|q: int|
            0 <= q < view_items(view, msaa, visible).len() ==> {
                let item = #[trigger] view_items(view, msaa, visible)[q];
                &&& item.view == view
                &&& item.msaa == msaa
                &&& exists|j: int|
                    0 <= j < visible.len() && visible[j] == (item.entity, Option::Some(item.data))
            },
        view_items(view, msaa, visible).len() <= visible.len(),
    decreases visible.len(),
{
    if visible.len() > 0 {
        let rest = visible.drop_last();
        lemma_view_items_sound(view, msaa, rest);
        let k = visible.len() - 1;
        assert forall|q: int|
            0 <= q < view_items(view, msaa, visible).len() implies {
            let item = #[trigger] view_items(view, msaa, visible)[q];
            &&& item.view == view
            &&& item.msaa == msaa
            &&& exists|j: int|
                0 <= j < visible.len() && visible[j] == (item.entity, Option::Some(item.data))
        } by {
            if q < view_items(view, msaa, rest).len() {
                let item = view_items(view, msaa, rest)[q];
                let j = choose|j: int|
                    0 <= j < rest.len() && rest[j] == (item.entity, Option::Some(item.data));
                assert(visible[j] == rest[j]);
            } else {
                assert(visible[k] == (visible.last().0, visible.last().1));
            }
        }
    }
}

/// Every queued item belongs to a view that has a transparent phase, carries that
/// view's MSAA setting, and is one of its visible entities that has render data.
pub proof fn lemma_queue_plan_sound<E, D>(views: Seq<PhaseView<E, D>>)
    requires
        views.len() <= usize::MAX,
    ensures
        forall|q: int|
            0 <= q < queue_plan(views).len() ==> {
                let item = #[trigger] queue_plan(views)[q];
                &&& 0 <= item.view < views.len()
                &&& views[item.view as int].has_phase
                &&& item.msaa == views[item.view as int].msaa
                &&& exists|j: int|
                    0 <= j < views[item.view as int].visible@.len()
                        && views[item.view as int].visible@[j] == (
                        item.entity,
                        Option::Some(item.data),
                    )
            },
    decreases views.len(),
{
    if views.len() > 0 {
        let rest = views.drop_last();
        let k = views.len() - 1;
        let last = views.last();
        lemma_queue_plan_sound(rest);
        lemma_view_items_sound(k as usize, last.msaa, last.visible@);
        let front = queue_plan(rest);
        assert forall|q: int| 0 <= q < queue_plan(views).len() implies {
            let item = #[trigger] queue_plan(views)[q];
            &&& 0 <= item.view < views.len()
            &&& views[item.view as int].has_phase
            &&& item.msaa == views[item.view as int].msaa
            &&& exists|j: int|
                0 <= j < views[item.view as int].visible@.len()
                    && views[item.view as int].visible@[j] == (item.entity, Option::Some(item.data))
        } by {
            if q < front.len() {
                let item = front[q];
                assert(queue_plan(views)[q] == item);
                assert(0 <= item.view < rest.len());
                assert(views[item.view as int] == rest[item.view as int]);
            } else {
                assert(last.has_phase);
                let item = view_items(k as usize, last.msaa, last.visible@)[q - front.len()];
                assert(queue_plan(views)[q] == item);
                assert(item.view == k);
            }
        }
    }
}

} // verus!
