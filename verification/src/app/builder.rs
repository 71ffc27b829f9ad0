//! Assembling the panel application before its event loop starts.

use vstd::prelude::*;

use crate::app::App;

verus! {

/// Collects the compositor handles and the widgets of the panel.
pub struct AppBuilder<H, W> {
    pub handles: H,
    pub widgets: Vec<W>,
    pub should_exit: bool,
}

impl<H, W> AppBuilder<H, W> {
    /// A builder with the given handles and no widgets.
    pub fn new(handles: H) -> (builder: AppBuilder<H, W>)
        ensures
            builder.handles == handles,
            builder.widgets@ == Seq::<W>::empty(),
            !builder.should_exit,
    {
        AppBuilder { handles, widgets: Vec::new(), should_exit: false }
    }

    /// Adds a widget after those already added.
    pub fn add_widget(self, widget: W) -> (builder: AppBuilder<H, W>)
        ensures
            builder.handles == self.handles,
            builder.widgets@ == self.widgets@.push(widget),
            builder.should_exit == self.should_exit,
    {
        let mut builder = self;
        builder.widgets.push(widget);
        builder
    }

    /// The application with the collected handles and widgets, in the order
    /// they were added.
    pub fn build(self) -> (app: App<H, W>)
        ensures
            app.handles == self.handles,
            app.widgets@ == self.widgets@,
            app.should_exit == self.should_exit,
    {
        App { handles: self.handles, widgets: self.widgets, should_exit: self.should_exit }
    }
}

/// `builders` are the states of a builder made by `new` and then given each
/// widget of `added` in turn, as the contracts of `new` and `add_widget`
/// state them.
pub open spec fn is_add_chain<H, W>(builders: Seq<AppBuilder<H, W>>, added: Seq<W>) -> bool {
    &&& builders.len() == added.len() + 1
    &&& builders[0].widgets@ == Seq::<W>::empty()
    &&& !builders[0].should_exit
    &&& forall|k: int|
        0 <= k < added.len() ==> {
            &&& builders[k + 1].widgets@ == builders[k].widgets@.push(#[trigger] added[k])
            &&& builders[k + 1].handles == builders[k].handles
            &&& builders[k + 1].should_exit == builders[k].should_exit
        }
}

proof fn lemma_add_chain_prefix<H, W>(builders: Seq<AppBuilder<H, W>>, added: Seq<W>, j: int)
    requires
        is_add_chain(builders, added),
        0 <= j <= added.len(),
    ensures
        builders[j].widgets@ == added.take(j),
        builders[j].handles == builders[0].handles,
        !builders[j].should_exit,
    decreases j,
{
    if j > 0 {
        lemma_add_chain_prefix(builders, added, j - 1);
        assert(added.take(j) =~= added.take(j - 1).push(added[j - 1]));
    } else {
        assert(added.take(0) =~= Seq::<W>::empty());
    }
}

/// Building after adding any number of widgets gives an application with
/// exactly those widgets, in the order they were added, with the handles the
/// builder was made with, and not stopping.
pub proof fn lemma_build_keeps_added_widgets<H, W>(
    builders: Seq<AppBuilder<H, W>>,
    added: Seq<W>,
    app: App<H, W>,
)
    requires
        is_add_chain(builders, added),
        app.widgets@ == builders.last().widgets@,
        app.handles == builders.last().handles,
        app.should_exit == builders.last().should_exit,
    ensures
        app.widgets@ == added,
        app.handles == builders[0].handles,
        !app.should_exit,
{
    lemma_add_chain_prefix(builders, added, added.len() as int);
    assert(added.take(added.len() as int) =~= added);
}

} // verus!
