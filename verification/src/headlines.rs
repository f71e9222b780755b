//! The caller-side state of the application core: the user's configuration,
//! the accumulated cards, and the handle of the background worker that
//! delivers them.

use vstd::prelude::*;

use crate::cards::NewsCardData;
use crate::channel::WorkerHandle;
use crate::poller::drain_into;

verus! {

/// The user's persisted settings. Loading and storing them is the caller's
/// business; this core only reads them.
pub struct HeadlinesConfig {
    pub dark_mode: bool,
    pub api_key: String,
}

impl Default for HeadlinesConfig {
    /// Light mode, and no credential yet.
    fn default() -> (c: Self)
        ensures
            !c.dark_mode,
            c.api_key@.len() == 0,
    {
        HeadlinesConfig { dark_mode: false, api_key: String::new() }
    }
}

/// The foreground state: the cards received so far, in receipt order, the
/// configuration, and the handle of the running worker, once one is wired up.
pub struct Headlines {
    pub articles: Vec<NewsCardData>,
    pub config: HeadlinesConfig,
    pub is_api_key_initialized: bool,
    pub worker: Option<WorkerHandle>,
}

impl Headlines {
    /// A fresh foreground state over an already-loaded configuration: no
    /// cards, no worker, and the credential counts as initialized exactly
    /// when the configuration carries a non-empty one.
    pub fn new(config: HeadlinesConfig) -> (r: Self)
        ensures
            r.articles@.len() == 0,
            r.config == config,
            r.is_api_key_initialized == (config.api_key@.len() != 0),
            r.worker is None,
    {
        let is_api_key_initialized = !config.api_key.as_str().is_empty();
        Headlines { articles: Vec::new(), config, is_api_key_initialized, worker: None }
    }

    /// One UI tick's worth of intake: appends, in receipt order, every card
    /// the worker has delivered since the last tick, without waiting; with no
    /// worker wired up it changes nothing. Cards already shown stay in place,
    /// and the rest of the state is untouched.
    pub fn preload_articles(&mut self)
        ensures
            final(self).articles@.len() >= old(self).articles@.len(),
            forall|i: int|
                0 <= i < old(self).articles@.len() ==> final(self).articles@[i] == old(
                    self,
                ).articles@[i],
            final(self).config == old(self).config,
            final(self).is_api_key_initialized == old(self).is_api_key_initialized,
            final(self).worker == old(self).worker,
    {
        match &mut self.worker {
            Some(w) => {
                drain_into(w, &mut self.articles);
            },
            None => {},
        }
    }

    /// The cards received so far, in receipt order.
    pub fn articles(&self) -> (r: &Vec<NewsCardData>)
        ensures
            r == self.articles,
    {
        &self.articles
    }
}

} // verus!
