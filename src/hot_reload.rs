use vstd::prelude::*;

verus! {

/// The top-level section of the configuration file.
#[derive(Clone, Debug)]
pub struct Global {
    pub cool_string: String,
}

/// What the decoder produces from the configuration file.
#[derive(Debug)]
pub struct InnerConfig {
    pub global: Global,
}

/// Why the configuration file could not be turned into a value.
#[derive(Clone, Debug)]
pub enum LoadError {
    /// The file could not be read; holds the underlying cause.
    Read(String),
    /// The contents could not be decoded; holds the decoder's message.
    Decode(String),
}

/// The configuration currently in effect, and the file it is loaded from.
#[derive(Clone, Debug)]
pub struct Config {
    pub global: Global,
    path: String,
}

impl Global {
    /// A copy of this section.
    fn duplicate(&self) -> (r: Global)
        ensures
            r == *self,
    {
        Global { cool_string: self.cool_string.clone() }
    }
}

impl Config {
    /// The value currently in effect.
    pub closed spec fn value(&self) -> Global {
        self.global
    }

    /// The path of the file this configuration is bound to.
    pub closed spec fn path_view(&self) -> Seq<char> {
        self.path@
    }

    /// A configuration bound to `path`, holding the decoded `data`.
    pub fn new(path: &str, data: InnerConfig) -> (r: Config)
        ensures
            r.value() == data.global,
            r.path_view() == path@,
    {
        Config { global: data.global, path: path.to_owned() }
    }

    /// The first load: succeeds exactly when the file was read and decoded.
    /// On failure no configuration exists, and the error is handed back unchanged.
    pub fn load(path: &str, loaded: Result<InnerConfig, LoadError>) -> (r: Result<Config, LoadError>)
        ensures
            match loaded {
                Ok(data) => r matches Ok(c) && c.value() == data.global && c.path_view() == path@,
                Err(e) => r == Err::<Config, LoadError>(e),
            },
    {
        match loaded {
            Ok(data) => Ok(Config::new(path, data)),
            Err(e) => Err(e),
        }
    }

    /// The path of the file this configuration is bound to.
    pub fn path(&self) -> (r: &str)
        ensures
            r@ == self.path_view(),
    {
        self.path.as_str()
    }

    /// A copy of the value currently in effect.
    pub fn snapshot(&self) -> (r: Global)
        ensures
            r == self.value(),
    {
        self.global.duplicate()
    }

    /// Swaps in a new value as a whole; the path stays.
    pub fn replace(&mut self, value: Global)
        ensures
            final(self).value() == value,
            final(self).path_view() == old(self).path_view(),
    {
        self.global = value;
    }

    /// Reloads from the outcome of reading and decoding the file again.
    /// On success the new value replaces the old one; on failure the last good value stays
    /// and the error is handed back.
    pub fn config_reload(&mut self, loaded: Result<InnerConfig, LoadError>) -> (r: Result<(), LoadError>)
        ensures
            final(self).path_view() == old(self).path_view(),
            match loaded {
                Ok(data) => r is Ok && final(self).value() == data.global,
                Err(e) => r == Err::<(), LoadError>(e) && final(self).value() == old(self).value(),
            },
    {
        match loaded {
            Ok(data) => {
                self.replace(data.global);
                Ok(())
            },
            Err(e) => Err(e),
        }
    }

    /// Appends a callback to be run after every successful reload.
    pub fn add_callback<F: Fn()>(callbacks: &mut Vec<F>, callback: F)
        ensures
            final(callbacks)@ == old(callbacks)@.push(callback),
    {
        callbacks.push(callback);
    }

    /// Runs every callback once, in registration order.
    pub fn run_callbacks<F: Fn()>(callbacks: &Vec<F>) -> (n: usize)
        requires
            forall|i: int| 0 <= i < callbacks@.len() ==> callbacks@[i].requires(()),
        ensures
            n == callbacks@.len(),
            forall|i: int| 0 <= i < callbacks@.len() ==> callbacks@[i].ensures((), ()),
    {
        let mut i: usize = 0;
        while i < callbacks.len()
            invariant
                i <= callbacks@.len(),
                forall|j: int| 0 <= j < callbacks@.len() ==> callbacks@[j].requires(()),
                forall|j: int| 0 <= j < i ==> callbacks@[j].ensures((), ()),
            decreases callbacks@.len() - i,
        {
            let f = &callbacks[i];
            f();
            i = i + 1;
        }
        i
    }

    /// The reload pipeline: swaps in the new value, then runs every callback in order.
    /// On failure the last good value stays, no callback runs, and the error is handed back.
    /// Returns how many callbacks ran.
    pub fn reload_and_notify<F: Fn()>(
        &mut self,
        loaded: Result<InnerConfig, LoadError>,
        callbacks: &Vec<F>,
    ) -> (r: Result<usize, LoadError>)
        requires
            forall|i: int| 0 <= i < callbacks@.len() ==> callbacks@[i].requires(()),
        ensures
            final(self).path_view() == old(self).path_view(),
            match loaded {
                Ok(data) => r == Ok::<usize, LoadError>(callbacks@.len() as usize)
                    && final(self).value() == data.global
                    && forall|i: int| 0 <= i < callbacks@.len() ==> callbacks@[i].ensures((), ()),
                Err(e) => r == Err::<usize, LoadError>(e) && final(self).value() == old(self).value(),
            },
    {
        match self.config_reload(loaded) {
            Ok(()) => Ok(Config::run_callbacks(callbacks)),
            Err(e) => Err(e),
        }
    }
}

} // verus!
