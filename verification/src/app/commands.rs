use vstd::prelude::*;

verus! {

/// A request about the dialogs of a page.
pub enum PageCommand<D> {
    PushDialog(D),
    PopDialog,
}

/// A request that a view passes to the page it sits in: one about the
/// page's dialogs, or another one for the page to pass on.
pub enum Command<D, C> {
    Page(PageCommand<D>),
    Other(C),
}

/// The requests that are not about dialogs, in their order.
pub open spec fn passed_on<D, C>(cs: Seq<Command<D, C>>) -> Seq<C>
    decreases cs.len(),
{
    if cs.len() == 0 {
        Seq::empty()
    } else {
        passed_on(cs.drop_last()) + match cs.last() {
            Command::Other(c) => seq![c],
            Command::Page(_) => Seq::empty(),
        }
    }
}

/// The dialogs after the requests about dialogs, carried out from the last
/// request to the first: a push adds a dialog on top, a pop takes the top one
/// away when there is one.
pub open spec fn dialogs_after<D, C>(ds: Seq<D>, cs: Seq<Command<D, C>>) -> Seq<D>
    decreases cs.len(),
{
    if cs.len() == 0 {
        ds
    } else {
        let ds1 = match cs.last() {
            Command::Page(PageCommand::PushDialog(d)) => ds.push(d),
            Command::Page(PageCommand::PopDialog) => if ds.len() > 0 {
                ds.drop_last()
            } else {
                ds
            },
            Command::Other(_) => ds,
        };
        dialogs_after(ds1, cs.drop_last())
    }
}

/// Carries out the requests about dialogs, taking the requests from the
/// last to the first, and returns the others in their order.
pub fn route_commands<D, C>(commands: Vec<Command<D, C>>, dialogs: &mut Vec<D>) -> (r: Vec<C>)
    ensures
        r@ == passed_on(commands@),
        final(dialogs)@ == dialogs_after(old(dialogs)@, commands@),
{
    let mut commands = commands;
    let ghost all = commands@;
    let mut processed: Vec<C> = Vec::new();
    while commands.len() > 0
        invariant
            all.len() >= commands@.len(),
            commands@ == all.take(commands@.len() as int),
            passed_on(commands@) + processed@ == passed_on(all),
            dialogs_after(dialogs@, commands@) == dialogs_after(old(dialogs)@, all),
        decreases commands@.len(),
    {
        let ghost before = commands@;
        let command = commands.pop().unwrap();
        proof {
            assert(commands@ == before.drop_last());
            assert(commands@ =~= all.take(commands@.len() as int));
        }
        match command {
            Command::Page(page_command) => {
                match page_command {
                    PageCommand::PopDialog => {
                        dialogs.pop();
                    },
                    PageCommand::PushDialog(dialog) => {
                        dialogs.push(dialog);
                    },
                }
                proof {
                    assert(passed_on(commands@) + processed@ =~= passed_on(before) + processed@);
                }
            },
            Command::Other(c) => {
                let ghost p = processed@;
                processed.insert(0, c);
                proof {
                    assert(passed_on(commands@) + processed@ =~= passed_on(before) + p);
                }
            },
        }
    }
    proof {
        assert(processed@ =~= passed_on(commands@) + processed@);
    }
    processed
}

/// Carries out what a view answered to a key: when it handled the key, its
/// requests about dialogs are carried out as [`route_commands`] does and the
/// others are handed on; when it failed, the dialogs stay as they were and
/// the error is handed on.
pub fn route_result<D, C, E>(result: Result<Vec<Command<D, C>>, E>, dialogs: &mut Vec<D>) -> (r: Result<
    Vec<C>,
    E,
>)
    ensures
        match result {
            Ok(cs) => r matches Ok(v) && v@ == passed_on(cs@) && final(dialogs)@ == dialogs_after(
                old(dialogs)@,
                cs@,
            ),
            Err(e) => r == Err::<Vec<C>, E>(e) && *final(dialogs) == *old(dialogs),
        },
{
    match result {
        Ok(commands) => Ok(route_commands(commands, dialogs)),
        Err(e) => Err(e),
    }
}

/// A request to the application: about its stack of pages, its stack of
/// popups, or to end.
pub enum AppCommand<P, Q> {
    PushPage(P),
    PopPage,
    PushPopup(Q),
    PopPopup,
    Quit,
}

/// The pages, the popups and whether to end after one request: a push adds
/// on top, a pop takes the top away when there is one.
pub open spec fn app_step<P, Q>(pages: Seq<P>, popups: Seq<Q>, quit: bool, c: AppCommand<P, Q>) -> (
    Seq<P>,
    Seq<Q>,
    bool,
) {
    match c {
        AppCommand::PushPage(p) => (pages.push(p), popups, quit),
        AppCommand::PopPage => (
            if pages.len() > 0 {
                pages.drop_last()
            } else {
                pages
            },
            popups,
            quit,
        ),
        AppCommand::PushPopup(q) => (pages, popups.push(q), quit),
        AppCommand::PopPopup => (
            pages,
            if popups.len() > 0 {
                popups.drop_last()
            } else {
                popups
            },
            quit,
        ),
        AppCommand::Quit => (pages, popups, true),
    }
}

/// The pages, the popups and whether to end after the requests, carried out
/// from the last request to the first.
pub open spec fn app_after<P, Q>(pages: Seq<P>, popups: Seq<Q>, quit: bool, cs: Seq<AppCommand<P, Q>>) -> (
    Seq<P>,
    Seq<Q>,
    bool,
)
    decreases cs.len(),
{
    if cs.len() == 0 {
        (pages, popups, quit)
    } else {
        let (p1, q1, z1) = app_step(pages, popups, quit, cs.last());
        app_after(p1, q1, z1, cs.drop_last())
    }
}

/// Carries out the requests to the application, from the last to the first.
pub fn process_app_commands<P, Q>(
    commands: Vec<AppCommand<P, Q>>,
    pages: &mut Vec<P>,
    popups: &mut Vec<Q>,
    should_quit: &mut bool,
)
    ensures
        (final(pages)@, final(popups)@, *final(should_quit)) == app_after(
            old(pages)@,
            old(popups)@,
            *old(should_quit),
            commands@,
        ),
{
    let mut commands = commands;
    let ghost all = commands@;
    while commands.len() > 0
        invariant
            all.len() >= commands@.len(),
            commands@ == all.take(commands@.len() as int),
            app_after(pages@, popups@, *should_quit, commands@) == app_after(
                old(pages)@,
                old(popups)@,
                *old(should_quit),
                all,
            ),
        decreases commands@.len(),
    {
        let ghost before = commands@;
        let command = commands.pop().unwrap();
        proof {
            assert(commands@ == before.drop_last());
            assert(commands@ =~= all.take(commands@.len() as int));
        }
        match command {
            AppCommand::PushPage(p) => pages.push(p),
            AppCommand::PopPage => {
                pages.pop();
            },
            AppCommand::PushPopup(q) => popups.push(q),
            AppCommand::PopPopup => {
                popups.pop();
            },
            AppCommand::Quit => {
                *should_quit = true;
            },
        }
    }
}

/// A page pushed and then popped, in one batch of requests, leaves the
/// application as it was.
pub proof fn law_push_then_pop_page<P, Q>(pages: Seq<P>, popups: Seq<Q>, quit: bool, p: P)
    ensures
        app_after(pages, popups, quit, seq![AppCommand::PopPage, AppCommand::PushPage(p)]) == (
            pages,
            popups,
            quit,
        ),
{
    let cs = seq![AppCommand::<P, Q>::PopPage, AppCommand::PushPage(p)];
    assert(cs.drop_last() =~= seq![AppCommand::<P, Q>::PopPage]);
    assert(cs.drop_last().drop_last() =~= Seq::<AppCommand<P, Q>>::empty());
    assert(pages.push(p).drop_last() =~= pages);
    assert(app_after(pages.push(p), popups, quit, cs.drop_last()) == app_after(
        pages,
        popups,
        quit,
        cs.drop_last().drop_last(),
    ));
}

/// A page replaced in one batch of requests, its successor pushed after the
/// pop, leaves the pages below it as they were and the successor on top.
pub proof fn law_replace_page<P, Q>(pages: Seq<P>, popups: Seq<Q>, quit: bool, p: P)
    requires
        pages.len() > 0,
    ensures
        app_after(pages, popups, quit, seq![AppCommand::PushPage(p), AppCommand::PopPage]) == (
            pages.drop_last().push(p),
            popups,
            quit,
        ),
{
    let cs = seq![AppCommand::<P, Q>::PushPage(p), AppCommand::PopPage];
    assert(cs.drop_last() =~= seq![AppCommand::<P, Q>::PushPage(p)]);
    assert(cs.drop_last().drop_last() =~= Seq::<AppCommand<P, Q>>::empty());
    assert(app_after(pages.drop_last(), popups, quit, cs.drop_last()) == app_after(
        pages.drop_last().push(p),
        popups,
        quit,
        cs.drop_last().drop_last(),
    ));
}

} // verus!
