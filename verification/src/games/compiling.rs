use vstd::prelude::*;

use crate::game_manager::CompileLanguage;
use std::collections::VecDeque;

verus! {

/// The decorative build-log overlay shown while a game is paused. It owns a
/// queue of log lines and slowly rotates it: every fifth tick the front line
/// moves to the back, which scrolls the visible window through the log.
pub struct Compiling {
    pub messages: VecDeque<String>,
    pub tick_count: u32,
    pub display_messages: Vec<String>,
    pub current_language: CompileLanguage,
}

/// The views of a sequence of owned strings.
pub open spec fn views_of(s: Seq<String>) -> Seq<Seq<char>> {
    s.map_values(|x: String| x@)
}

/// The log lines shown for each build-log style.
pub open spec fn messages_for(lang: CompileLanguage) -> Seq<Seq<char>> {
    match lang {
        CompileLanguage::Rust => seq![
            "Compiling libc v0.2.169"@,
            "Compiling proc-macro2 v1.0.93"@,
            "Compiling unicode-ident v1.0.16"@,
            "Compiling autocfg v1.4.0"@,
            "Compiling parking_lot_core v0.8.6"@,
            "Compiling signal-hook v0.3.17"@,
            "Compiling lock_api v0.4.12"@,
            "Compiling signal-hook-registry v1.4.2"@,
            "Compiling getrandom v0.2.15"@,
            "Compiling mio v0.7.14"@,
            "Compiling rand_core v0.6.4"@,
            "Compiling signal-hook-mio v0.2.4"@,
            "Compiling parking_lot v0.11.2"@,
            "Compiling quote v1.0.38"@,
            "Compiling syn v2.0.98"@,
            "Compiling crossterm v0.22.1"@,
            "Compiling tui v0.17.0"@,
        ],
        CompileLanguage::Go => seq![
            "go: downloading github.com/gin-gonic/gin v1.9.1"@,
            "go: downloading github.com/json-iterator/go v1.1.12"@,
            "go: downloading golang.org/x/crypto v0.14.0"@,
            "go: downloading github.com/golang/protobuf v1.5.0"@,
            "go: downloading google.golang.org/protobuf v1.31.0"@,
            "go: downloading github.com/modern-go/concurrent v0.0.0-20180306012644-bacd9c7ef1dd"@,
            "go: downloading github.com/modern-go/reflect2 v1.0.2"@,
            "go: downloading gopkg.in/yaml.v3 v3.0.1"@,
            "go: downloading github.com/go-playground/validator/v10 v10.14.0"@,
            "go: downloading github.com/bytedance/sonic v1.9.1"@,
            "go: downloading github.com/gabriel-vasile/mimetype v1.4.2"@,
            "go: downloading golang.org/x/arch v0.3.0"@,
            "go: downloading golang.org/x/net v0.17.0"@,
            "go: downloading golang.org/x/sys v0.13.0"@,
            "go: downloading golang.org/x/text v0.13.0"@,
        ],
        CompileLanguage::CMake => seq![
            "-- The C compiler identification is GNU 11.4.0"@,
            "-- The CXX compiler identification is GNU 11.4.0"@,
            "-- Detecting C compiler ABI info"@,
            "-- Detecting C compiler ABI info - done"@,
            "-- Check for working C compiler: /usr/bin/cc - skipped"@,
            "-- Detecting C compile features"@,
            "-- Detecting C compile features - done"@,
            "-- Detecting CXX compiler ABI info"@,
            "-- Detecting CXX compiler ABI info - done"@,
            "-- Check for working CXX compiler: /usr/bin/c++ - skipped"@,
            "-- Detecting CXX compile features"@,
            "-- Detecting CXX compile features - done"@,
            "-- Found OpenSSL: /usr/lib/x86_64-linux-gnu/libcrypto.so"@,
            "-- Looking for pthread.h"@,
            "-- Looking for pthread.h - found"@,
            "-- Found Threads: TRUE"@,
            "-- Configuring done"@,
            "-- Generating done"@,
            "-- Build files have been written to: /build"@,
        ],
    }
}

/// What one overlay tick does: the counter steps (wrapping at its maximum),
/// and on every fifth count the front log line moves to the back.
pub open spec fn spec_ticked(pre: Compiling, post: Compiling) -> bool {
    &&& post.tick_count == (if pre.tick_count == u32::MAX {
        0u32
    } else {
        (pre.tick_count + 1) as u32
    })
    &&& post.messages@ == (if post.tick_count % 5 == 0 && pre.messages@.len() > 0 {
        pre.messages@.subrange(1, pre.messages@.len() as int).push(pre.messages@[0])
    } else {
        pre.messages@
    })
    &&& post.current_language == pre.current_language
    &&& post.display_messages == pre.display_messages
}

impl Compiling {
    /// A fresh overlay showing the Rust build log from its first line.
    pub fn new() -> (c: Compiling)
        ensures
            c.tick_count == 0,
            c.current_language == CompileLanguage::Rust,
            views_of(c.messages@) == messages_for(CompileLanguage::Rust),
            c.display_messages@ =~= Seq::<String>::empty(),
    {
        let mut compiling = Compiling {
            messages: VecDeque::new(),
            tick_count: 0,
            display_messages: Vec::new(),
            current_language: CompileLanguage::Rust,
        };
        compiling.set_language(CompileLanguage::Rust);
        compiling
    }

    /// Replaces the whole queue with the log belonging to `lang`.
    pub fn set_language(&mut self, lang: CompileLanguage)
        ensures
            final(self).current_language == lang,
            views_of(final(self).messages@) == messages_for(lang),
            final(self).tick_count == old(self).tick_count,
            final(self).display_messages == old(self).display_messages,
    {
        self.current_language = lang;
        self.messages.clear();
        match lang {
            CompileLanguage::Rust => {
                self.messages.push_back(String::from_str("Compiling libc v0.2.169"));
                self.messages.push_back(String::from_str("Compiling proc-macro2 v1.0.93"));
                self.messages.push_back(String::from_str("Compiling unicode-ident v1.0.16"));
                self.messages.push_back(String::from_str("Compiling autocfg v1.4.0"));
                self.messages.push_back(String::from_str("Compiling parking_lot_core v0.8.6"));
                self.messages.push_back(String::from_str("Compiling signal-hook v0.3.17"));
                self.messages.push_back(String::from_str("Compiling lock_api v0.4.12"));
                self.messages.push_back(String::from_str("Compiling signal-hook-registry v1.4.2"));
                self.messages.push_back(String::from_str("Compiling getrandom v0.2.15"));
                self.messages.push_back(String::from_str("Compiling mio v0.7.14"));
                self.messages.push_back(String::from_str("Compiling rand_core v0.6.4"));
                self.messages.push_back(String::from_str("Compiling signal-hook-mio v0.2.4"));
                self.messages.push_back(String::from_str("Compiling parking_lot v0.11.2"));
                self.messages.push_back(String::from_str("Compiling quote v1.0.38"));
                self.messages.push_back(String::from_str("Compiling syn v2.0.98"));
                self.messages.push_back(String::from_str("Compiling crossterm v0.22.1"));
                self.messages.push_back(String::from_str("Compiling tui v0.17.0"));
            },
            CompileLanguage::Go => {
                self.messages.push_back(String::from_str("go: downloading github.com/gin-gonic/gin v1.9.1"));
                self.messages.push_back(String::from_str("go: downloading github.com/json-iterator/go v1.1.12"));
                self.messages.push_back(String::from_str("go: downloading golang.org/x/crypto v0.14.0"));
                self.messages.push_back(String::from_str("go: downloading github.com/golang/protobuf v1.5.0"));
                self.messages.push_back(String::from_str("go: downloading google.golang.org/protobuf v1.31.0"));
                self.messages.push_back(String::from_str("go: downloading github.com/modern-go/concurrent v0.0.0-20180306012644-bacd9c7ef1dd"));
                self.messages.push_back(String::from_str("go: downloading github.com/modern-go/reflect2 v1.0.2"));
                self.messages.push_back(String::from_str("go: downloading gopkg.in/yaml.v3 v3.0.1"));
                self.messages.push_back(String::from_str("go: downloading github.com/go-playground/validator/v10 v10.14.0"));
                self.messages.push_back(String::from_str("go: downloading github.com/bytedance/sonic v1.9.1"));
                self.messages.push_back(String::from_str("go: downloading github.com/gabriel-vasile/mimetype v1.4.2"));
                self.messages.push_back(String::from_str("go: downloading golang.org/x/arch v0.3.0"));
                self.messages.push_back(String::from_str("go: downloading golang.org/x/net v0.17.0"));
                self.messages.push_back(String::from_str("go: downloading golang.org/x/sys v0.13.0"));
                self.messages.push_back(String::from_str("go: downloading golang.org/x/text v0.13.0"));
            },
            CompileLanguage::CMake => {
                self.messages.push_back(String::from_str("-- The C compiler identification is GNU 11.4.0"));
                self.messages.push_back(String::from_str("-- The CXX compiler identification is GNU 11.4.0"));
                self.messages.push_back(String::from_str("-- Detecting C compiler ABI info"));
                self.messages.push_back(String::from_str("-- Detecting C compiler ABI info - done"));
                self.messages.push_back(String::from_str("-- Check for working C compiler: /usr/bin/cc - skipped"));
                self.messages.push_back(String::from_str("-- Detecting C compile features"));
                self.messages.push_back(String::from_str("-- Detecting C compile features - done"));
                self.messages.push_back(String::from_str("-- Detecting CXX compiler ABI info"));
                self.messages.push_back(String::from_str("-- Detecting CXX compiler ABI info - done"));
                self.messages.push_back(String::from_str("-- Check for working CXX compiler: /usr/bin/c++ - skipped"));
                self.messages.push_back(String::from_str("-- Detecting CXX compile features"));
                self.messages.push_back(String::from_str("-- Detecting CXX compile features - done"));
                self.messages.push_back(String::from_str("-- Found OpenSSL: /usr/lib/x86_64-linux-gnu/libcrypto.so"));
                self.messages.push_back(String::from_str("-- Looking for pthread.h"));
                self.messages.push_back(String::from_str("-- Looking for pthread.h - found"));
                self.messages.push_back(String::from_str("-- Found Threads: TRUE"));
                self.messages.push_back(String::from_str("-- Configuring done"));
                self.messages.push_back(String::from_str("-- Generating done"));
                self.messages.push_back(String::from_str("-- Build files have been written to: /build"));
            },
        }
        proof {
            assert(views_of(self.messages@) =~= messages_for(lang));
        }
    }

    /// One overlay tick. Every fifth tick the front log line is moved to the
    /// back of the queue; the tick counter wraps around at its maximum, as an
    /// unchecked increment would.
    pub fn update(&mut self)
        ensures
            spec_ticked(*old(self), *final(self)),
    {
        self.tick_count = if self.tick_count == u32::MAX {
            0
        } else {
            self.tick_count + 1
        };
        if self.tick_count % 5 == 0 && self.messages.len() > 0 {
            let first_msg = self.messages.pop_front();
            match first_msg {
                Some(m) => self.messages.push_back(m),
                None => (),
            }
        }
    }

    /// The window of log lines that fits a viewport of the given height
    /// (two rows are reserved for the surrounding border). The lines are also
    /// cached in `display_messages`, mirroring what is on screen.
    pub fn render(&mut self, height: u16) -> (r: Vec<String>)
        ensures
            r@.len() == vstd::math::min(
                if height >= 2 { (height - 2) as int } else { 0 },
                old(self).messages@.len() as int,
            ),
            forall|i: int| 0 <= i < r@.len() ==> r@[i] == old(self).messages@[i],
            final(self).display_messages@ =~= r@,
            final(self).messages == old(self).messages,
            final(self).tick_count == old(self).tick_count,
            final(self).current_language == old(self).current_language,
    {
        let visible_lines: usize = if height >= 2 {
            (height - 2) as usize
        } else {
            0
        };
        let count = if visible_lines < self.messages.len() {
            visible_lines
        } else {
            self.messages.len()
        };
        let mut shown: Vec<String> = Vec::new();
        let mut i: usize = 0;
        while i < count
            invariant
                0 <= i <= count,
                count <= self.messages@.len(),
                shown@.len() == i,
                forall|j: int| 0 <= j < i ==> shown@[j] == self.messages@[j],
            decreases count - i,
        {
            shown.push(self.messages[i].clone());
            i = i + 1;
        }
        let mut copy: Vec<String> = Vec::new();
        let mut k: usize = 0;
        while k < shown.len()
            invariant
                0 <= k <= shown@.len(),
                copy@.len() == k,
                forall|j: int| 0 <= j < k ==> copy@[j] == shown@[j],
            decreases shown@.len() - k,
        {
            copy.push(shown[k].clone());
            k = k + 1;
        }
        self.display_messages = copy;
        shown
    }
}

} // verus!
