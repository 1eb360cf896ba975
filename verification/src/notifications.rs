//! Local notifications: channels, notification builders and the requests that the
//! platform layer sends to `NotificationManager`.

use std::future::Future;
use std::marker::PhantomData;
use crate::text::opt_text;
use vstd::prelude::*;
use vstd::string::*;

verus! {

/// Importance of a notification channel.
#[derive(Debug, Clone, Copy, PartialEq, Eq, Structural)]
pub enum Priority {
    Min,
    Low,
    Default,
    High,
    Max,
}

/// The `NotificationManager.IMPORTANCE_*` constant for a priority: MIN = 1,
/// LOW = 2, DEFAULT = 3, HIGH = 4, MAX = 5.
pub open spec fn importance_of(p: Priority) -> i32 {
    match p {
        Priority::Min => 1,
        Priority::Low => 2,
        Priority::Default => 3,
        Priority::High => 4,
        Priority::Max => 5,
    }
}

/// Position of a priority, from the least to the most important.
pub open spec fn priority_rank(p: Priority) -> int {
    match p {
        Priority::Min => 0,
        Priority::Low => 1,
        Priority::Default => 2,
        Priority::High => 3,
        Priority::Max => 4,
    }
}

/// Maps a priority to the platform's importance constant.
pub fn priority_to_importance(p: Priority) -> (r: i32)
    ensures
        r == importance_of(p),
{
    match p {
        Priority::Min => 1,
        Priority::Low => 2,
        Priority::Default => 3,
        Priority::High => 4,
        Priority::Max => 5,
    }
}

/// A more important priority maps to a larger importance constant, and every
/// constant lies between IMPORTANCE_MIN and IMPORTANCE_MAX.
pub proof fn lemma_importance_monotone(p: Priority, q: Priority)
    ensures
        1 <= importance_of(p) <= 5,
        priority_rank(p) < priority_rank(q) ==> importance_of(p) < importance_of(q),
        importance_of(p) == importance_of(q) ==> p == q,
{
}

/// A button shown on a notification.
#[derive(Debug, Clone, PartialEq)]
pub struct Action {
    pub id: String,
    pub label: String,
}

impl Action {
    pub fn new(id: &str, label: &str) -> (a: Self)
        ensures
            a.id@ == id@,
            a.label@ == label@,
    {
        Action { id: String::from_str(id), label: String::from_str(label) }
    }
}

/// The contents of a channel.
pub struct ChannelView {
    pub id: Seq<char>,
    pub name: Seq<char>,
    pub importance: Priority,
}

/// A notification channel groups notifications for the user to manage.
pub struct Channel {
    id: String,
    name: String,
    importance: Priority,
}

impl View for Channel {
    type V = ChannelView;

    closed spec fn view(&self) -> ChannelView {
        ChannelView { id: self.id@, name: self.name@, importance: self.importance }
    }
}

/// What the platform layer asks of `NotificationManager`.
#[derive(Debug, Clone, PartialEq)]
pub enum NotificationRequest {
    /// `createNotificationChannel(new NotificationChannel(channel_id, name, importance))`.
    CreateChannel { channel_id: String, name: String, importance: i32 },
    /// Builds a notification on `channel_id` and posts it with `notify(id, ...)`;
    /// `progress` is `(max, current)` as handed to `setProgress`, and each action
    /// becomes a button, in order, whose taps go to the notification's action
    /// handler with the action's id.
    Notify {
        id: i32,
        channel_id: String,
        title: Option<String>,
        body: Option<String>,
        progress: Option<(i32, i32)>,
        ongoing: bool,
        actions: Vec<Action>,
    },
    /// `cancel(id)`.
    Cancel { id: i32 },
}

/// The ids and labels of a list of actions.
pub open spec fn action_texts(actions: Seq<Action>) -> Seq<(Seq<char>, Seq<char>)> {
    actions.map_values(|a: Action| (a.id@, a.label@))
}

impl Channel {
    /// A channel of default importance.
    pub fn new(id: &str, name: &str) -> (c: Self)
        ensures
            c@ == (ChannelView { id: id@, name: name@, importance: Priority::Default }),
    {
        Channel {
            id: String::from_str(id),
            name: String::from_str(name),
            importance: Priority::Default,
        }
    }

    pub fn importance(self, p: Priority) -> (c: Self)
        ensures
            c@ == (ChannelView { importance: p, ..self@ }),
    {
        let mut c = self;
        c.importance = p;
        c
    }

    /// Registers this channel with the system (API 26+; a no-op before).
    pub fn register(self) -> (r: NotificationRequest)
        ensures
            r matches NotificationRequest::CreateChannel { channel_id, name, importance } && channel_id@
                == self@.id && name@ == self@.name && importance == importance_of(self@.importance),
    {
        let importance = priority_to_importance(self.importance);
        NotificationRequest::CreateChannel { channel_id: self.id, name: self.name, importance }
    }
}

/// The contents of a notification.
pub struct NotificationView {
    pub channel_id: Seq<char>,
    pub title: Option<Seq<char>>,
    pub body: Option<Seq<char>>,
    pub progress: Option<(u32, u32)>,
    pub ongoing: bool,
    pub actions: Seq<(Seq<char>, Seq<char>)>,
}

/// The action handler of a notification that has none.
#[derive(Debug, Clone, Copy, PartialEq, Eq)]
pub struct NoActionHandler;

/// An action handler: the async closure that runs with the action's id when an
/// action button is tapped.
pub struct OnAction<F, Fut> {
    pub handler: F,
    pub future: PhantomData<Fut>,
}

/// Builder for a system notification; `H` is its action handler.
pub struct Notification<H = NoActionHandler> {
    channel_id: String,
    title: Option<String>,
    body: Option<String>,
    progress: Option<(u32, u32)>,
    ongoing: bool,
    actions: Vec<Action>,
    action_handler: H,
}

impl<H> View for Notification<H> {
    type V = NotificationView;

    closed spec fn view(&self) -> NotificationView {
        NotificationView {
            channel_id: self.channel_id@,
            title: opt_text(self.title),
            body: opt_text(self.body),
            progress: self.progress,
            ongoing: self.ongoing,
            actions: action_texts(self.actions@),
        }
    }
}

/// `(max, current)` as handed to `Notification.Builder.setProgress`.
pub open spec fn progress_arguments(p: Option<(u32, u32)>) -> Option<(i32, i32)> {
    match p {
        Some((current, total)) => Some((total as i32, current as i32)),
        None => None,
    }
}

impl Notification<NoActionHandler> {
    /// An empty notification on the given channel, without action handler.
    pub fn new(channel_id: &str) -> (n: Self)
        ensures
            n@ == (NotificationView {
                channel_id: channel_id@,
                title: None,
                body: None,
                progress: None,
                ongoing: false,
                actions: Seq::empty(),
            }),
            n.handler() == NoActionHandler,
    {
        let n = Notification {
            channel_id: String::from_str(channel_id),
            title: None,
            body: None,
            progress: None,
            ongoing: false,
            actions: Vec::new(),
            action_handler: NoActionHandler,
        };
        proof {
            assert(n@.actions =~= Seq::<(Seq<char>, Seq<char>)>::empty());
        }
        n
    }

    /// Dismisses the notification with the given id.
    pub fn cancel(id: u32) -> (r: NotificationRequest)
        ensures
            r matches NotificationRequest::Cancel { id: nid } && nid == id as i32,
    {
        NotificationRequest::Cancel { id: id as i32 }
    }
}

impl<H> Notification<H> {
    /// The notification's action handler.
    pub closed spec fn handler(&self) -> H {
        self.action_handler
    }

    pub fn title(self, t: &str) -> (n: Self)
        ensures
            n@ == (NotificationView { title: Some(t@), ..self@ }),
            n.handler() == self.handler(),
    {
        let mut n = self;
        n.title = Some(String::from_str(t));
        n
    }

    pub fn body(self, b: &str) -> (n: Self)
        ensures
            n@ == (NotificationView { body: Some(b@), ..self@ }),
            n.handler() == self.handler(),
    {
        let mut n = self;
        n.body = Some(String::from_str(b));
        n
    }

    pub fn progress(self, current: u32, total: u32) -> (n: Self)
        ensures
            n@ == (NotificationView { progress: Some((current, total)), ..self@ }),
            n.handler() == self.handler(),
    {
        let mut n = self;
        n.progress = Some((current, total));
        n
    }

    pub fn ongoing(self, v: bool) -> (n: Self)
        ensures
            n@ == (NotificationView { ongoing: v, ..self@ }),
            n.handler() == self.handler(),
    {
        let mut n = self;
        n.ongoing = v;
        n
    }

    /// Adds an action button, after the ones already there.
    pub fn action(self, a: Action) -> (n: Self)
        ensures
            n@ == (NotificationView { actions: self@.actions.push((a.id@, a.label@)), ..self@ }),
            n.handler() == self.handler(),
    {
        let mut n = self;
        let ghost old_actions = n.actions@;
        n.actions.push(a);
        proof {
            assert(action_texts(n.actions@) =~= action_texts(old_actions).push((a.id@, a.label@)));
        }
        n
    }

    /// Sets the async handler that runs, with the action's id, when one of the
    /// notification's action buttons is tapped. On a device the taps arrive
    /// through a `BroadcastReceiver`; on the desktop the handler is kept and never
    /// called.
    pub fn on_action<F, Fut>(self, handler: F) -> (n: Notification<OnAction<F, Fut>>) where
        F: Fn(String) -> Fut + Send + 'static,
        Fut: Future<Output = ()> + Send + 'static,

        ensures
            n@ == self@,
            n.handler().handler == handler,
    {
        Notification {
            channel_id: self.channel_id,
            title: self.title,
            body: self.body,
            progress: self.progress,
            ongoing: self.ongoing,
            actions: self.actions,
            action_handler: OnAction { handler, future: PhantomData },
        }
    }

    /// Displays the notification under the given numeric id: the request to post,
    /// and the action handler that receives the taps on its buttons.
    pub fn show(self, id: u32) -> (r: (NotificationRequest, H))
        ensures
            r.1 == self.handler(),
            r.0 matches NotificationRequest::Notify { id: nid, channel_id, title, body, progress, ongoing, actions }
                && nid == id as i32 && channel_id@ == self@.channel_id && opt_text(title)
                == self@.title && opt_text(body) == self@.body && progress == progress_arguments(
                self@.progress,
            ) && ongoing == self@.ongoing && action_texts(actions@) == self@.actions,
    {
        let progress = match self.progress {
            Some((current, total)) => Some((total as i32, current as i32)),
            None => None,
        };
        (
            NotificationRequest::Notify {
                id: id as i32,
                channel_id: self.channel_id,
                title: self.title,
                body: self.body,
                progress,
                ongoing: self.ongoing,
                actions: self.actions,
            },
            self.action_handler,
        )
    }
}

} // verus!
