pub use crate::attributes::{AttrMap, Class, Id, IntoAttribute, Style};
pub use crate::tags::a::{a, A, AAttr, Download, Href, Target};
pub use crate::tags::body::{body, Body, BodyAttr};
pub use crate::tags::body_node::BodyNode;
pub use crate::tags::br::Br;
pub use crate::tags::div::{div, Div, DivAttr};
pub use crate::tags::form::{form, Action, Form, FormAttr, Method};
pub use crate::tags::head::{head, Head};
pub use crate::tags::head_node::HeadNode;
pub use crate::tags::headings::{h1, h2, h3, h4, h5, h6, HeadingAttr, H1, H2, H3, H4, H5, H6};
pub use crate::tags::html::{html, Html};
pub use crate::tags::img::{img, Alt, Img, ImgAttr, Src};
pub use crate::tags::input::{input, Input, InputAttr, Name, Placeholder, Type, Value};
pub use crate::tags::label::{label, Label};
pub use crate::tags::meta::{meta, Content, Meta, MetaAttr, MetaName};
pub use crate::tags::noscript::{noscript, NoScript};
pub use crate::tags::option::{select_option, SelectOption, SelectOptionAttr};
pub use crate::tags::p::{p, P, PAttr};
pub use crate::tags::select::{select, Select, SelectAttr};
pub use crate::tags::style::{style, StyleTag};
pub use crate::tags::title::{title, Title};
pub use crate::text::{text, Text};
