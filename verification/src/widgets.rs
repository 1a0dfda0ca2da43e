//! Desktop widgets: the kinds of cards that can be placed on the home layer, their
//! labels and icons, and the persistence keys they are stored under.
use vstd::prelude::*;
use crate::text::{concat, owned, skip_chars, starts_with, str_eq};

verus! {

/// All widget types that can appear on the home layer.
#[derive(Debug)]
pub enum WidgetKind {
    Clock,
    SystemInfo,
    Messages,
    MyTasks,
    QuickNotes,
    Weather,
    /// Status widget for one bot instance (id = bot name).
    BotStatus(String),
    /// A widget installed from the Store, identified by its package ID.
    Custom(String),
}

/// The abstract value of a [`WidgetKind`].
pub enum WidgetKindView {
    Clock,
    SystemInfo,
    Messages,
    MyTasks,
    QuickNotes,
    Weather,
    BotStatus(Seq<char>),
    Custom(Seq<char>),
}

impl View for WidgetKind {
    type V = WidgetKindView;

    open spec fn view(&self) -> WidgetKindView {
        match self {
            WidgetKind::Clock => WidgetKindView::Clock,
            WidgetKind::SystemInfo => WidgetKindView::SystemInfo,
            WidgetKind::Messages => WidgetKindView::Messages,
            WidgetKind::MyTasks => WidgetKindView::MyTasks,
            WidgetKind::QuickNotes => WidgetKindView::QuickNotes,
            WidgetKind::Weather => WidgetKindView::Weather,
            WidgetKind::BotStatus(id) => WidgetKindView::BotStatus(id@),
            WidgetKind::Custom(id) => WidgetKindView::Custom(id@),
        }
    }
}

impl Clone for WidgetKind {
    fn clone(&self) -> (r: Self)
        ensures
            r@ == self@,
    {
        match self {
            WidgetKind::Clock => WidgetKind::Clock,
            WidgetKind::SystemInfo => WidgetKind::SystemInfo,
            WidgetKind::Messages => WidgetKind::Messages,
            WidgetKind::MyTasks => WidgetKind::MyTasks,
            WidgetKind::QuickNotes => WidgetKind::QuickNotes,
            WidgetKind::Weather => WidgetKind::Weather,
            WidgetKind::BotStatus(id) => WidgetKind::BotStatus(id.clone()),
            WidgetKind::Custom(id) => WidgetKind::Custom(id.clone()),
        }
    }
}

/// Persistence key of a widget kind.
pub open spec fn widget_key(k: WidgetKindView) -> Seq<char> {
    match k {
        WidgetKindView::Clock => "Clock"@,
        WidgetKindView::SystemInfo => "SystemInfo"@,
        WidgetKindView::Messages => "Messages"@,
        WidgetKindView::MyTasks => "MyTasks"@,
        WidgetKindView::QuickNotes => "QuickNotes"@,
        WidgetKindView::Weather => "Weather"@,
        WidgetKindView::BotStatus(id) => "bot:"@ + id,
        WidgetKindView::Custom(id) => "custom:"@ + id,
    }
}

/// The widget kind a persistence key denotes, if any.
pub open spec fn widget_from_key(s: Seq<char>) -> Option<WidgetKindView> {
    if s == "Clock"@ {
        Some(WidgetKindView::Clock)
    } else if s == "SystemInfo"@ {
        Some(WidgetKindView::SystemInfo)
    } else if s == "Messages"@ {
        Some(WidgetKindView::Messages)
    } else if s == "MyTasks"@ {
        Some(WidgetKindView::MyTasks)
    } else if s == "QuickNotes"@ {
        Some(WidgetKindView::QuickNotes)
    } else if s == "Weather"@ {
        Some(WidgetKindView::Weather)
    } else if "bot:"@.is_prefix_of(s) {
        Some(WidgetKindView::BotStatus(s.skip(4)))
    } else if "custom:"@.is_prefix_of(s) {
        Some(WidgetKindView::Custom(s.skip(7)))
    } else {
        None
    }
}

/// Human-readable label of a widget kind.
pub open spec fn widget_label(k: WidgetKindView) -> Seq<char> {
    match k {
        WidgetKindView::Clock => "Clock"@,
        WidgetKindView::SystemInfo => "System Info"@,
        WidgetKindView::Messages => "Messages"@,
        WidgetKindView::MyTasks => "My Tasks"@,
        WidgetKindView::QuickNotes => "Quick Notes"@,
        WidgetKindView::Weather => "Weather"@,
        WidgetKindView::BotStatus(id) => "Bot: "@ + id,
        WidgetKindView::Custom(id) => id,
    }
}

/// Default (width, height) in pixels of a widget kind.
pub open spec fn widget_default_size(k: WidgetKindView) -> (u32, u32) {
    match k {
        WidgetKindView::Clock => (220u32, 140u32),
        WidgetKindView::SystemInfo => (280u32, 190u32),
        WidgetKindView::QuickNotes => (300u32, 230u32),
        WidgetKindView::Messages | WidgetKindView::MyTasks => (320u32, 220u32),
        WidgetKindView::Weather => (260u32, 160u32),
        WidgetKindView::BotStatus(_) => (260u32, 140u32),
        WidgetKindView::Custom(_) => (280u32, 180u32),
    }
}

/// Emoji icon of a widget kind.
pub open spec fn widget_icon(k: WidgetKindView) -> Seq<char> {
    match k {
        WidgetKindView::Clock => "🕐"@,
        WidgetKindView::SystemInfo => "🖥"@,
        WidgetKindView::Messages => "📬"@,
        WidgetKindView::MyTasks => "✅"@,
        WidgetKindView::QuickNotes => "📝"@,
        WidgetKindView::Weather => "🌤"@,
        WidgetKindView::BotStatus(_) => "🤖"@,
        WidgetKindView::Custom(_) => "🧩"@,
    }
}

/// Base of the `We10X` app icon URLs used in the widget picker.
pub open spec fn we10x_apps() -> Seq<char> {
    "https://raw.githubusercontent.com/yeyushengfan258/We10X-icon-theme/master/src/apps/scalable/"@
}

impl WidgetKind {
    /// Human-readable label shown in the widget picker.
    pub fn label(&self) -> (l: String)
        ensures
            l@ == widget_label(self@),
    {
        match self {
            WidgetKind::Clock => owned("Clock"),
            WidgetKind::SystemInfo => owned("System Info"),
            WidgetKind::Messages => owned("Messages"),
            WidgetKind::MyTasks => owned("My Tasks"),
            WidgetKind::QuickNotes => owned("Quick Notes"),
            WidgetKind::Weather => owned("Weather"),
            WidgetKind::BotStatus(id) => concat("Bot: ", id.as_str()),
            WidgetKind::Custom(id) => id.clone(),
        }
    }

    /// Emoji icon used as fallback when no icon URL is available.
    pub fn icon(&self) -> (i: &'static str)
        ensures
            i@ == widget_icon(self@),
    {
        match self {
            WidgetKind::Clock => "🕐",
            WidgetKind::SystemInfo => "🖥",
            WidgetKind::Messages => "📬",
            WidgetKind::MyTasks => "✅",
            WidgetKind::QuickNotes => "📝",
            WidgetKind::Weather => "🌤",
            WidgetKind::BotStatus(_) => "🤖",
            WidgetKind::Custom(_) => "🧩",
        }
    }

    /// `We10X` SVG icon URL for the widget picker panel.
    pub fn icon_url(&self) -> (u: &'static str)
        ensures
            u@ == we10x_apps() + match self@ {
                WidgetKindView::Clock => "preferences-system-time.svg"@,
                WidgetKindView::SystemInfo => "utilities-system-monitor.svg"@,
                WidgetKindView::Messages => "internet-mail.svg"@,
                WidgetKindView::MyTasks => "evolution-tasks.svg"@,
                WidgetKindView::QuickNotes => "accessories-text-editor.svg"@,
                WidgetKindView::Weather => "indicator-weather.svg"@,
                WidgetKindView::BotStatus(_) => "internet-chat.svg"@,
                WidgetKindView::Custom(_) => "preferences-plugin-script.svg"@,
            },
    {
        proof {
            reveal_strlit("https://raw.githubusercontent.com/yeyushengfan258/We10X-icon-theme/master/src/apps/scalable/");
        }
        match self {
            WidgetKind::Clock => {
                proof {
                    reveal_strlit("preferences-system-time.svg");
                    reveal_strlit("https://raw.githubusercontent.com/yeyushengfan258/We10X-icon-theme/master/src/apps/scalable/preferences-system-time.svg");
                }
                "https://raw.githubusercontent.com/yeyushengfan258/We10X-icon-theme/master/src/apps/scalable/preferences-system-time.svg"
            },
            WidgetKind::SystemInfo => {
                proof {
                    reveal_strlit("utilities-system-monitor.svg");
                    reveal_strlit("https://raw.githubusercontent.com/yeyushengfan258/We10X-icon-theme/master/src/apps/scalable/utilities-system-monitor.svg");
                }
                "https://raw.githubusercontent.com/yeyushengfan258/We10X-icon-theme/master/src/apps/scalable/utilities-system-monitor.svg"
            },
            WidgetKind::Messages => {
                proof {
                    reveal_strlit("internet-mail.svg");
                    reveal_strlit("https://raw.githubusercontent.com/yeyushengfan258/We10X-icon-theme/master/src/apps/scalable/internet-mail.svg");
                }
                "https://raw.githubusercontent.com/yeyushengfan258/We10X-icon-theme/master/src/apps/scalable/internet-mail.svg"
            },
            WidgetKind::MyTasks => {
                proof {
                    reveal_strlit("evolution-tasks.svg");
                    reveal_strlit("https://raw.githubusercontent.com/yeyushengfan258/We10X-icon-theme/master/src/apps/scalable/evolution-tasks.svg");
                }
                "https://raw.githubusercontent.com/yeyushengfan258/We10X-icon-theme/master/src/apps/scalable/evolution-tasks.svg"
            },
            WidgetKind::QuickNotes => {
                proof {
                    reveal_strlit("accessories-text-editor.svg");
                    reveal_strlit("https://raw.githubusercontent.com/yeyushengfan258/We10X-icon-theme/master/src/apps/scalable/accessories-text-editor.svg");
                }
                "https://raw.githubusercontent.com/yeyushengfan258/We10X-icon-theme/master/src/apps/scalable/accessories-text-editor.svg"
            },
            WidgetKind::Weather => {
                proof {
                    reveal_strlit("indicator-weather.svg");
                    reveal_strlit("https://raw.githubusercontent.com/yeyushengfan258/We10X-icon-theme/master/src/apps/scalable/indicator-weather.svg");
                }
                "https://raw.githubusercontent.com/yeyushengfan258/We10X-icon-theme/master/src/apps/scalable/indicator-weather.svg"
            },
            WidgetKind::BotStatus(_) => {
                proof {
                    reveal_strlit("internet-chat.svg");
                    reveal_strlit("https://raw.githubusercontent.com/yeyushengfan258/We10X-icon-theme/master/src/apps/scalable/internet-chat.svg");
                }
                "https://raw.githubusercontent.com/yeyushengfan258/We10X-icon-theme/master/src/apps/scalable/internet-chat.svg"
            },
            WidgetKind::Custom(_) => {
                proof {
                    reveal_strlit("preferences-plugin-script.svg");
                    reveal_strlit("https://raw.githubusercontent.com/yeyushengfan258/We10X-icon-theme/master/src/apps/scalable/preferences-plugin-script.svg");
                }
                "https://raw.githubusercontent.com/yeyushengfan258/We10X-icon-theme/master/src/apps/scalable/preferences-plugin-script.svg"
            },
        }
    }

    /// Built-in widget kinds, in picker order. Does not include Custom or bot variants.
    pub fn all() -> (kinds: Vec<WidgetKind>)
        ensures
            kinds@.map_values(|k: WidgetKind| k@) == seq![
                WidgetKindView::Clock,
                WidgetKindView::SystemInfo,
                WidgetKindView::Messages,
                WidgetKindView::MyTasks,
                WidgetKindView::QuickNotes,
                WidgetKindView::Weather,
            ],
    {
        let kinds = vec![
            WidgetKind::Clock,
            WidgetKind::SystemInfo,
            WidgetKind::Messages,
            WidgetKind::MyTasks,
            WidgetKind::QuickNotes,
            WidgetKind::Weather,
        ];
        assert(kinds@.map_values(|k: WidgetKind| k@) =~= seq![
            WidgetKindView::Clock,
            WidgetKindView::SystemInfo,
            WidgetKindView::Messages,
            WidgetKindView::MyTasks,
            WidgetKindView::QuickNotes,
            WidgetKindView::Weather,
        ]);
        kinds
    }

    /// Default (width, height) in whole pixels for a newly placed widget.
    pub fn default_size(&self) -> (wh: (u32, u32))
        ensures
            wh == widget_default_size(self@),
    {
        match self {
            WidgetKind::Clock => (220, 140),
            WidgetKind::SystemInfo => (280, 190),
            WidgetKind::QuickNotes => (300, 230),
            WidgetKind::Messages | WidgetKind::MyTasks => (320, 220),
            WidgetKind::Weather => (260, 160),
            WidgetKind::BotStatus(_) => (260, 140),
            WidgetKind::Custom(_) => (280, 180),
        }
    }

    /// The built-in kinds followed by a `Custom` kind for each Store widget id, in order.
    pub fn all_with_custom(widget_ids: &Vec<String>) -> (kinds: Vec<WidgetKind>)
        ensures
            kinds@.map_values(|k: WidgetKind| k@) == seq![
                WidgetKindView::Clock,
                WidgetKindView::SystemInfo,
                WidgetKindView::Messages,
                WidgetKindView::MyTasks,
                WidgetKindView::QuickNotes,
                WidgetKindView::Weather,
            ] + widget_ids@.map_values(|id: String| WidgetKindView::Custom(id@)),
    {
        let mut kinds = Self::all();
        let ghost base = kinds@.map_values(|k: WidgetKind| k@);
        let mut i: usize = 0;
        while i < widget_ids.len()
            invariant
                i <= widget_ids@.len(),
                base == seq![
                    WidgetKindView::Clock,
                    WidgetKindView::SystemInfo,
                    WidgetKindView::Messages,
                    WidgetKindView::MyTasks,
                    WidgetKindView::QuickNotes,
                    WidgetKindView::Weather,
                ],
                kinds@.map_values(|k: WidgetKind| k@) == base + widget_ids@.take(i as int).map_values(
                    |id: String| WidgetKindView::Custom(id@),
                ),
            decreases widget_ids@.len() - i,
        {
            let ghost before = kinds@;
            let id = owned(widget_ids[i].as_str());
            kinds.push(WidgetKind::Custom(id));
            assert(kinds@.map_values(|k: WidgetKind| k@) =~= before.map_values(|k: WidgetKind| k@).push(
                WidgetKindView::Custom(widget_ids@[i as int]@),
            ));
            assert(widget_ids@.take(i + 1) =~= widget_ids@.take(i as int).push(widget_ids@[i as int]));
            assert(kinds@.map_values(|k: WidgetKind| k@) =~= base + widget_ids@.take(i + 1).map_values(
                |id: String| WidgetKindView::Custom(id@),
            ));
            i += 1;
        }
        assert(widget_ids@.take(widget_ids@.len() as int) =~= widget_ids@);
        kinds
    }

    /// Persistence key string.
    pub fn as_str(&self) -> (key: String)
        ensures
            key@ == widget_key(self@),
    {
        match self {
            WidgetKind::Clock => owned("Clock"),
            WidgetKind::SystemInfo => owned("SystemInfo"),
            WidgetKind::Messages => owned("Messages"),
            WidgetKind::MyTasks => owned("MyTasks"),
            WidgetKind::QuickNotes => owned("QuickNotes"),
            WidgetKind::Weather => owned("Weather"),
            WidgetKind::BotStatus(id) => concat("bot:", id.as_str()),
            WidgetKind::Custom(id) => concat("custom:", id.as_str()),
        }
    }

    /// Parse from persistence key string.
    pub fn from_key(s: &str) -> (k: Option<WidgetKind>)
        ensures
            match k {
                Some(w) => widget_from_key(s@) == Some(w@),
                None => widget_from_key(s@).is_none(),
            },
    {
        proof {
            reveal_strlit("bot:");
            reveal_strlit("custom:");
        }
        if str_eq(s, "Clock") {
            Some(WidgetKind::Clock)
        } else if str_eq(s, "SystemInfo") {
            Some(WidgetKind::SystemInfo)
        } else if str_eq(s, "Messages") {
            Some(WidgetKind::Messages)
        } else if str_eq(s, "MyTasks") {
            Some(WidgetKind::MyTasks)
        } else if str_eq(s, "QuickNotes") {
            Some(WidgetKind::QuickNotes)
        } else if str_eq(s, "Weather") {
            Some(WidgetKind::Weather)
        } else if starts_with(s, "bot:") {
            Some(WidgetKind::BotStatus(skip_chars(s, 4)))
        } else if starts_with(s, "custom:") {
            Some(WidgetKind::Custom(skip_chars(s, 7)))
        } else {
            None
        }
    }
}

/// Parsing the persistence key of any widget kind gives that kind back.
pub proof fn law_widget_key_round_trip(k: WidgetKindView)
    ensures
        widget_from_key(widget_key(k)) == Some(k),
{
    reveal_strlit("Clock");
    reveal_strlit("SystemInfo");
    reveal_strlit("Messages");
    reveal_strlit("MyTasks");
    reveal_strlit("QuickNotes");
    reveal_strlit("Weather");
    reveal_strlit("bot:");
    reveal_strlit("custom:");
    match k {
        WidgetKindView::BotStatus(id) => {
            let s = "bot:"@ + id;
            assert(s[0] == 'b');
            assert(s[0] != "Clock"@[0] && s[0] != "SystemInfo"@[0] && s[0] != "Messages"@[0]
                && s[0] != "MyTasks"@[0] && s[0] != "QuickNotes"@[0] && s[0] != "Weather"@[0]);
            assert(s != "Clock"@ && s != "SystemInfo"@ && s != "Messages"@ && s != "MyTasks"@
                && s != "QuickNotes"@ && s != "Weather"@);
            assert(s.subrange(0, 4) =~= "bot:"@);
            assert("bot:"@.is_prefix_of(s));
            assert(s.skip(4) =~= id);
            assert(widget_key(k) == s);
            assert(widget_from_key(s) == Some(WidgetKindView::BotStatus(s.skip(4))));
            assert(widget_from_key(widget_key(k)) == Some(k));
        },
        WidgetKindView::Custom(id) => {
            let s = "custom:"@ + id;
            assert(s[0] == 'c');
            assert(s[0] != "Clock"@[0] && s[0] != "SystemInfo"@[0] && s[0] != "Messages"@[0]
                && s[0] != "MyTasks"@[0] && s[0] != "QuickNotes"@[0] && s[0] != "Weather"@[0]);
            assert(s != "Clock"@ && s != "SystemInfo"@ && s != "Messages"@ && s != "MyTasks"@
                && s != "QuickNotes"@ && s != "Weather"@);
            assert(s.subrange(0, 4)[0] != "bot:"@[0]);
            assert(!"bot:"@.is_prefix_of(s));
            assert(s.subrange(0, 7) =~= "custom:"@);
            assert("custom:"@.is_prefix_of(s));
            assert(s.skip(7) =~= id);
            assert(widget_from_key(widget_key(k)) == Some(k));
        },
        _ => {
            assert("Clock"@.len() == 5 && "Clock"@[0] == 'C');
            assert("SystemInfo"@.len() == 10 && "SystemInfo"@[0] == 'S');
            assert("Messages"@.len() == 8 && "Messages"@[0] == 'M');
            assert("MyTasks"@.len() == 7 && "MyTasks"@[0] == 'M');
            assert("QuickNotes"@.len() == 10 && "QuickNotes"@[0] == 'Q');
            assert("Weather"@.len() == 7 && "Weather"@[0] == 'W');
            assert(widget_from_key(widget_key(k)) == Some(k));
        },
    }
}

/// Every key that parses is the persistence key of the kind it parses to.
pub proof fn law_widget_key_of_parsed(s: Seq<char>)
    requires
        widget_from_key(s).is_some(),
    ensures
        widget_key(widget_from_key(s).unwrap()) == s,
{
    reveal_strlit("bot:");
    reveal_strlit("custom:");
    if "bot:"@.is_prefix_of(s) {
        assert("bot:"@ + s.skip(4) =~= s);
    }
    if "custom:"@.is_prefix_of(s) {
        assert("custom:"@ + s.skip(7) =~= s);
    }
}

/// The widgets the picker offers: the built-in kinds, then one per installed Store widget.
pub fn all_picker_widgets(widget_ids: &Vec<String>) -> (kinds: Vec<WidgetKind>)
    ensures
        kinds@.map_values(|k: WidgetKind| k@) == seq![
            WidgetKindView::Clock,
            WidgetKindView::SystemInfo,
            WidgetKindView::Messages,
            WidgetKindView::MyTasks,
            WidgetKindView::QuickNotes,
            WidgetKindView::Weather,
        ] + widget_ids@.map_values(|id: String| WidgetKindView::Custom(id@)),
{
    WidgetKind::all_with_custom(widget_ids)
}

} // verus!
